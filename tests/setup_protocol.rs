use lulu::release::{release_order, Resource};
use lulu::selection::{select_physical_device, select_queue_family};
use lulu::setup::{Action, Reply, Setup, SetupError, Step};

fn through_surface(s: &mut Setup) {
    assert_eq!(s.advance(Reply::Created), Action::Perform(Step::InstallSink));
    assert_eq!(s.advance(Reply::Created), Action::Perform(Step::CreateSurface));
    assert_eq!(s.advance(Reply::Created), Action::Perform(Step::EnumerateDevices));
}

#[test]
fn queue_family_first_graphics_match() {
    // families 1 and 3 report graphics support
    let families = vec![0b110, 0b011, 0b100, 0b001];
    assert_eq!(select_queue_family(&families), Some(1));
    assert_eq!(select_queue_family(&families), Some(1));
}

#[test]
fn queue_family_none_without_graphics() {
    assert_eq!(select_queue_family(&vec![0b10, 0b100, 0b1000]), None);
    assert_eq!(select_queue_family(&vec![]), None);
}

#[test]
fn physical_device_is_first_enumerated() {
    assert_eq!(select_physical_device(&vec![42, 7, 9]), Some(42));
    assert_eq!(select_physical_device(&vec![]), None);
}

#[test]
fn setup_completes_with_graphics_device() {
    let mut s = Setup::new();
    through_surface(&mut s);
    assert_eq!(s.advance(Reply::Devices(vec![5, 6])), Action::Perform(Step::ListQueueFamilies));
    assert_eq!(s.advance(Reply::QueueFamilies(vec![0b100, 0b111])), Action::Perform(Step::CreateDevice));
    assert_eq!(s.advance(Reply::Created), Action::Complete);
    assert_eq!(s.physical_device, Some(5));
    assert_eq!(s.queue_family, Some(1));
    assert_eq!(s.created, 4);
    assert_eq!(s.error, None);
    assert_eq!(s.pending, None);
    assert_eq!(
        s.release_all(),
        vec![Resource::Sink, Resource::Surface, Resource::Device, Resource::Instance]
    );
    assert_eq!(s.created, 0);
}

#[test]
fn setup_fails_without_devices() {
    let mut s = Setup::new();
    through_surface(&mut s);
    assert_eq!(s.advance(Reply::Devices(vec![])), Action::Abort(SetupError::NoPhysicalDevice));
    assert_eq!(s.error, Some(SetupError::NoPhysicalDevice));
    assert_eq!(s.release_all(), vec![Resource::Sink, Resource::Surface, Resource::Instance]);
}

#[test]
fn setup_fails_without_graphics_family() {
    let mut s = Setup::new();
    through_surface(&mut s);
    s.advance(Reply::Devices(vec![3]));
    assert_eq!(
        s.advance(Reply::QueueFamilies(vec![0b10, 0b100])),
        Action::Abort(SetupError::NoGraphicsQueueFamily)
    );
    assert_eq!(s.queue_family, None);
    assert_eq!(s.release_all(), vec![Resource::Sink, Resource::Surface, Resource::Instance]);
}

#[test]
fn setup_instance_failure_releases_nothing() {
    let mut s = Setup::new();
    assert_eq!(s.advance(Reply::Failed), Action::Abort(SetupError::InstanceCreation));
    assert_eq!(s.release_all(), vec![]);
}

#[test]
fn setup_sink_failure_releases_instance() {
    let mut s = Setup::new();
    s.advance(Reply::Created);
    assert_eq!(s.advance(Reply::Failed), Action::Abort(SetupError::SinkInstallation));
    assert_eq!(s.release_all(), vec![Resource::Instance]);
}

#[test]
fn setup_surface_failure() {
    let mut s = Setup::new();
    s.advance(Reply::Created);
    s.advance(Reply::Created);
    assert_eq!(s.advance(Reply::Failed), Action::Abort(SetupError::SurfaceCreation));
    assert_eq!(s.release_all(), vec![Resource::Sink, Resource::Instance]);
}

#[test]
fn setup_enumeration_and_device_failures() {
    let mut s = Setup::new();
    through_surface(&mut s);
    assert_eq!(s.advance(Reply::Failed), Action::Abort(SetupError::DeviceEnumeration));

    let mut t = Setup::new();
    through_surface(&mut t);
    t.advance(Reply::Devices(vec![1]));
    t.advance(Reply::QueueFamilies(vec![1]));
    assert_eq!(t.advance(Reply::Failed), Action::Abort(SetupError::DeviceCreation));
    assert_eq!(t.release_all(), vec![Resource::Sink, Resource::Surface, Resource::Instance]);
}

#[test]
fn setup_wrong_reply_counts_as_failure() {
    let mut s = Setup::new();
    assert_eq!(s.advance(Reply::Devices(vec![1])), Action::Abort(SetupError::InstanceCreation));
    // a finished setup keeps reporting its outcome
    assert_eq!(s.advance(Reply::Created), Action::Abort(SetupError::InstanceCreation));
}

#[test]
fn release_order_puts_instance_last() {
    assert_eq!(release_order(0), vec![]);
    assert_eq!(release_order(1), vec![Resource::Instance]);
    assert_eq!(release_order(2), vec![Resource::Sink, Resource::Instance]);
    assert_eq!(
        release_order(4),
        vec![Resource::Sink, Resource::Surface, Resource::Device, Resource::Instance]
    );
}
