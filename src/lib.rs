//! Verified core of a Vulkan window bootstrap: the ordered setup protocol,
//! device and queue-family selection, release ordering, and the window
//! session's reaction to events.

pub mod release;
pub mod request;
pub mod selection;
pub mod session;
pub mod setup;
pub mod vkconst;
