//! The ordered, all-or-nothing setup of the graphics context, as a state
//! machine: the caller performs each requested Vulkan call and feeds back
//! what it returned.
use vstd::prelude::*;
use crate::release::{Resource, is_live, lemma_release_plan_sound, release_order, release_plan};
use crate::selection::{
    first_graphics, lemma_first_graphics_from, select_physical_device, select_queue_family,
};
use crate::vkconst::supports_graphics;

verus! {

/// One outside call of the setup sequence.
#[derive(PartialEq, Eq, Structural, Clone, Copy, Debug)]
pub enum Step {
    CreateInstance,
    InstallSink,
    CreateSurface,
    EnumerateDevices,
    ListQueueFamilies,
    CreateDevice,
}

/// What the outside call of the pending step gave back.
pub enum Reply {
    /// The creation call succeeded.
    Created,
    /// Device enumeration succeeded with these raw device handles.
    Devices(Vec<u64>),
    /// The raw capability flags of each queue family, in enumeration order.
    QueueFamilies(Vec<u32>),
    /// The call failed at the API level.
    Failed,
}

/// Why setup stopped.
#[derive(PartialEq, Eq, Structural, Clone, Copy, Debug)]
pub enum SetupError {
    InstanceCreation,
    SinkInstallation,
    SurfaceCreation,
    DeviceEnumeration,
    NoPhysicalDevice,
    NoGraphicsQueueFamily,
    DeviceCreation,
}

/// What the caller does next.
#[derive(PartialEq, Eq, Structural, Clone, Copy, Debug)]
pub enum Action {
    /// Perform this step and report its reply.
    Perform(Step),
    /// Setup failed: release what exists (see `Setup::release_all`) and stop.
    Abort(SetupError),
    /// Setup is complete.
    Complete,
}

/// Progress of the setup sequence.
#[derive(PartialEq, Eq, Structural, Clone, Copy, Debug)]
pub struct Setup {
    /// The step awaiting its reply; `None` once setup completed or failed.
    pub pending: Option<Step>,
    /// How many owned objects exist, a prefix of the creation order.
    pub created: usize,
    pub physical_device: Option<u64>,
    pub queue_family: Option<usize>,
    pub error: Option<SetupError>,
}

/// How many owned objects exist while `step` awaits its reply.
pub open spec fn created_before(step: Step) -> nat {
    match step {
        Step::CreateInstance => 0,
        Step::InstallSink => 1,
        Step::CreateSurface => 2,
        _ => 3,
    }
}

/// The state before any call is made.
pub open spec fn initial_setup() -> Setup {
    Setup { pending: Some(Step::CreateInstance), created: 0, physical_device: None, queue_family: None, error: None }
}

/// `pre` stops with `e`; what exists stays recorded until it is released.
pub open spec fn fail(pre: Setup, e: SetupError) -> (Setup, Action) {
    (Setup { pending: None, error: Some(e), ..pre }, Action::Abort(e))
}

/// `pre` created one more object and waits on `next`.
pub open spec fn made(pre: Setup, next: Step) -> (Setup, Action) {
    (Setup { pending: Some(next), created: (pre.created + 1) as usize, ..pre }, Action::Perform(next))
}

/// The state and the action after `reply` arrives in `pre`. A reply of a
/// kind the pending step does not produce counts as that step's failure.
pub open spec fn transition(pre: Setup, reply: Reply) -> (Setup, Action) {
    match pre.pending {
        None => (pre, match pre.error {
            Some(e) => Action::Abort(e),
            None => Action::Complete,
        }),
        Some(Step::CreateInstance) => if reply is Created {
            made(pre, Step::InstallSink)
        } else {
            fail(pre, SetupError::InstanceCreation)
        },
        Some(Step::InstallSink) => if reply is Created {
            made(pre, Step::CreateSurface)
        } else {
            fail(pre, SetupError::SinkInstallation)
        },
        Some(Step::CreateSurface) => if reply is Created {
            made(pre, Step::EnumerateDevices)
        } else {
            fail(pre, SetupError::SurfaceCreation)
        },
        Some(Step::EnumerateDevices) => match reply {
            Reply::Devices(v) => if v@.len() > 0 {
                (
                    Setup { pending: Some(Step::ListQueueFamilies), physical_device: Some(v@[0]), ..pre },
                    Action::Perform(Step::ListQueueFamilies),
                )
            } else {
                fail(pre, SetupError::NoPhysicalDevice)
            },
            _ => fail(pre, SetupError::DeviceEnumeration),
        },
        Some(Step::ListQueueFamilies) => match reply {
            Reply::QueueFamilies(f) => match first_graphics(f@) {
                Some(q) => (
                    Setup { pending: Some(Step::CreateDevice), queue_family: Some(q as usize), ..pre },
                    Action::Perform(Step::CreateDevice),
                ),
                None => fail(pre, SetupError::NoGraphicsQueueFamily),
            },
            _ => fail(pre, SetupError::NoGraphicsQueueFamily),
        },
        Some(Step::CreateDevice) => if reply is Created {
            (Setup { pending: None, created: 4, ..pre }, Action::Complete)
        } else {
            fail(pre, SetupError::DeviceCreation)
        },
    }
}

/// The state after feeding `replies` in order, starting from `s`.
pub open spec fn run_setup(s: Setup, replies: Seq<Reply>) -> Setup
    decreases replies.len(),
{
    if replies.len() == 0 {
        s
    } else {
        run_setup(transition(s, replies[0]).0, replies.drop_first())
    }
}

impl Setup {
    /// Internal consistency: what exists matches the pending step.
    pub open spec fn wf(&self) -> bool {
        &&& self.created <= 4
        &&& match self.pending {
            Some(step) => {
                &&& self.error is None
                &&& self.created == created_before(step)
                &&& (self.physical_device is Some <==> (step == Step::ListQueueFamilies
                    || step == Step::CreateDevice))
                &&& (self.queue_family is Some <==> step == Step::CreateDevice)
            },
            None => self.error is None ==> {
                &&& self.created == 4
                &&& self.physical_device is Some
                &&& self.queue_family is Some
            },
        }
    }

    /// Whether setup finished with every object created.
    pub open spec fn is_complete(&self) -> bool {
        self.pending is None && self.error is None
    }

    /// A fresh setup, waiting to create the instance.
    pub fn new() -> (r: Setup)
        ensures
            r == initial_setup(),
            r.wf(),
    {
        Setup {
            pending: Some(Step::CreateInstance),
            created: 0,
            physical_device: None,
            queue_family: None,
            error: None,
        }
    }

    /// Takes the reply to the pending step and says what to do next.
    pub fn advance(&mut self, reply: Reply) -> (a: Action)
        requires
            old(self).wf(),
        ensures
            (*final(self), a) == transition(*old(self), reply),
            final(self).wf(),
    {
        let step = match self.pending {
            Some(step) => step,
            None => {
                return match self.error {
                    Some(e) => Action::Abort(e),
                    None => Action::Complete,
                };
            },
        };
        match step {
            Step::CreateInstance | Step::InstallSink | Step::CreateSurface | Step::CreateDevice => {
                match reply {
                    Reply::Created => {
                        self.created = self.created + 1;
                        match step {
                            Step::CreateInstance => {
                                self.pending = Some(Step::InstallSink);
                                Action::Perform(Step::InstallSink)
                            },
                            Step::InstallSink => {
                                self.pending = Some(Step::CreateSurface);
                                Action::Perform(Step::CreateSurface)
                            },
                            Step::CreateSurface => {
                                self.pending = Some(Step::EnumerateDevices);
                                Action::Perform(Step::EnumerateDevices)
                            },
                            _ => {
                                self.pending = None;
                                Action::Complete
                            },
                        }
                    },
                    _ => {
                        let e = match step {
                            Step::CreateInstance => SetupError::InstanceCreation,
                            Step::InstallSink => SetupError::SinkInstallation,
                            Step::CreateSurface => SetupError::SurfaceCreation,
                            _ => SetupError::DeviceCreation,
                        };
                        self.stop(e)
                    },
                }
            },
            Step::EnumerateDevices => match reply {
                Reply::Devices(v) => match select_physical_device(&v) {
                    Some(d) => {
                        self.physical_device = Some(d);
                        self.pending = Some(Step::ListQueueFamilies);
                        Action::Perform(Step::ListQueueFamilies)
                    },
                    None => self.stop(SetupError::NoPhysicalDevice),
                },
                _ => self.stop(SetupError::DeviceEnumeration),
            },
            Step::ListQueueFamilies => match reply {
                Reply::QueueFamilies(f) => match select_queue_family(&f) {
                    Some(q) => {
                        self.queue_family = Some(q);
                        self.pending = Some(Step::CreateDevice);
                        Action::Perform(Step::CreateDevice)
                    },
                    None => self.stop(SetupError::NoGraphicsQueueFamily),
                },
                _ => self.stop(SetupError::NoGraphicsQueueFamily),
            },
        }
    }

    fn stop(&mut self, e: SetupError) -> (a: Action)
        ensures
            (*final(self), a) == fail(*old(self), e),
    {
        self.pending = None;
        self.error = Some(e);
        Action::Abort(e)
    }

    /// Gives back every object that exists, in release order, and records
    /// that none is left; used after a failure and at shutdown.
    pub fn release_all(&mut self) -> (r: Vec<Resource>)
        requires
            old(self).created <= 4,
        ensures
            r@ == release_plan(old(self).created as nat),
            *final(self) == (Setup { created: 0, ..*old(self) }),
    {
        let v = release_order(self.created);
        self.created = 0;
        v
    }
}

/// The replies of a setup in which every call succeeds, with these devices
/// and these queue families on the first device.
pub open spec fn successful_replies(devices: Vec<u64>, families: Vec<u32>) -> Seq<Reply> {
    seq![
        Reply::Created,
        Reply::Created,
        Reply::Created,
        Reply::Devices(devices),
        Reply::QueueFamilies(families),
        Reply::Created,
    ]
}

proof fn lemma_run_setup_unfold(s: Setup, replies: Seq<Reply>)
    requires
        replies.len() > 0,
    ensures
        run_setup(s, replies) == run_setup(transition(s, replies[0]).0, replies.drop_first()),
{
}

/// When at least one device is enumerated and the first one has a
/// graphics-capable queue family, setup completes: every owned object exists,
/// the first device is chosen, and so is its first graphics-capable family.
pub proof fn lemma_setup_succeeds(devices: Vec<u64>, families: Vec<u32>)
    requires
        devices@.len() > 0,
        exists|j: int| 0 <= j < families@.len() && supports_graphics(#[trigger] families@[j]),
    ensures
        ({
            let s = run_setup(initial_setup(), successful_replies(devices, families));
            &&& s.is_complete()
            &&& s.created == 4
            &&& s.physical_device == Some(devices@[0])
            &&& first_graphics(families@) matches Some(q) && s.queue_family == Some(q as usize)
        }),
{
    lemma_first_graphics_from(families@, 0);
    let r = successful_replies(devices, families);
    let s0 = initial_setup();
    let s1 = transition(s0, r[0]).0;
    let s2 = transition(s1, r[1]).0;
    let s3 = transition(s2, r[2]).0;
    let s4 = transition(s3, r[3]).0;
    let s5 = transition(s4, r[4]).0;
    let s6 = transition(s5, r[5]).0;
    lemma_run_setup_unfold(s0, r);
    lemma_run_setup_unfold(s1, r.drop_first());
    lemma_run_setup_unfold(s2, r.drop_first().drop_first());
    lemma_run_setup_unfold(s3, r.drop_first().drop_first().drop_first());
    lemma_run_setup_unfold(s4, r.drop_first().drop_first().drop_first().drop_first());
    lemma_run_setup_unfold(s5, r.drop_first().drop_first().drop_first().drop_first().drop_first());
    assert(r.drop_first().drop_first().drop_first().drop_first().drop_first().drop_first().len() == 0);
    assert(s6.is_complete());
}

/// When enumeration reports no device, setup stops with `NoPhysicalDevice`
/// after the instance, the sink and the surface were made, and releasing what
/// exists gives back each of them.
pub proof fn lemma_no_device_fails(devices: Vec<u64>)
    requires
        devices@.len() == 0,
    ensures
        ({
            let s = run_setup(
                initial_setup(),
                seq![Reply::Created, Reply::Created, Reply::Created, Reply::Devices(devices)],
            );
            &&& s.error == Some(SetupError::NoPhysicalDevice)
            &&& s.pending is None
            &&& s.created == 3
            &&& forall|res: Resource| is_live(s.created as nat, res)
                ==> #[trigger] release_plan(s.created as nat).contains(res)
            &&& release_plan(s.created as nat).contains(Resource::Instance)
            &&& release_plan(s.created as nat).contains(Resource::Sink)
            &&& release_plan(s.created as nat).contains(Resource::Surface)
        }),
{
    let r = seq![Reply::Created, Reply::Created, Reply::Created, Reply::Devices(devices)];
    let s0 = initial_setup();
    let s1 = transition(s0, r[0]).0;
    let s2 = transition(s1, r[1]).0;
    let s3 = transition(s2, r[2]).0;
    lemma_run_setup_unfold(s0, r);
    lemma_run_setup_unfold(s1, r.drop_first());
    lemma_run_setup_unfold(s2, r.drop_first().drop_first());
    lemma_run_setup_unfold(s3, r.drop_first().drop_first().drop_first());
    assert(r.drop_first().drop_first().drop_first().drop_first().len() == 0);
    lemma_release_plan_sound(3);
    assert(release_plan(3)[0] == Resource::Sink);
    assert(release_plan(3)[1] == Resource::Surface);
    assert(release_plan(3)[2] == Resource::Instance);
}

/// When no queue family of the first device supports graphics, setup stops
/// with `NoGraphicsQueueFamily`.
pub proof fn lemma_no_graphics_family_fails(devices: Vec<u64>, families: Vec<u32>)
    requires
        devices@.len() > 0,
        forall|j: int| 0 <= j < families@.len() ==> !supports_graphics(#[trigger] families@[j]),
    ensures
        ({
            let s = run_setup(initial_setup(), successful_replies(devices, families).take(5));
            &&& s.error == Some(SetupError::NoGraphicsQueueFamily)
            &&& s.pending is None
            &&& s.created == 3
        }),
{
    lemma_first_graphics_from(families@, 0);
    let r = successful_replies(devices, families).take(5);
    let s0 = initial_setup();
    let s1 = transition(s0, r[0]).0;
    let s2 = transition(s1, r[1]).0;
    let s3 = transition(s2, r[2]).0;
    let s4 = transition(s3, r[3]).0;
    lemma_run_setup_unfold(s0, r);
    lemma_run_setup_unfold(s1, r.drop_first());
    lemma_run_setup_unfold(s2, r.drop_first().drop_first());
    lemma_run_setup_unfold(s3, r.drop_first().drop_first().drop_first());
    lemma_run_setup_unfold(s4, r.drop_first().drop_first().drop_first().drop_first());
    assert(r.drop_first().drop_first().drop_first().drop_first().drop_first().len() == 0);
}

} // verus!
