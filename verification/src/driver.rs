//! The service's lifecycle: activation, deactivation, and the routing of
//! everything that happens in between.
//!
//! The driver never calls its host.  It is told what happened, as an
//! [`Event`], and answers with what the host is to do next, as an
//! [`Action`].  [`step`] is the whole of that table; each routine below
//! carries out one row of it.
//!
//! Activation registers a device and a link to it, then makes the shared
//! state block and arms its timer.  If a registration fails, whatever was
//! registered before it is taken back and no block is made.  Deactivation
//! first has the timer cancelled and running callbacks waited for, and only
//! then gives up the block and the registrations.

use crate::device::{
    acknowledgement, answer, dispatch_create_close, dispatch_device_control, dpc_callback,
    DeviceExtension, IoctlRequest, SharedState, Timer, TIMER_DUE_TIME, TIMER_PERIOD,
};
use crate::irql::ExecutionContext;
use crate::request::{Completion, STATUS_SUCCESS};
use vstd::prelude::*;

verus! {

/// Name under which the device is registered with the host.
pub const DEVICE_NAME: &'static str = "\\Device\\RustDriver";

/// Name of the link through which clients reach the device.
pub const SYMBOLIC_LINK_NAME: &'static str = "\\??\\RustDriver";

/// Path by which a client opens the endpoint.
pub const CLIENT_PATH: &'static str = "\\\\.\\RustDriver";

/// Something the host tells the driver.
#[derive(Clone, Copy, PartialEq, Eq, Debug)]
pub enum Event {
    /// The service is to be activated.
    Load,
    /// The host tried to create the device and got `status`.
    DeviceCreated { status: i32 },
    /// The host tried to create the symbolic link and got `status`.
    LinkCreated { status: i32 },
    /// The periodic timer ran out and its callback runs.
    TimerFired,
    /// A client opens the endpoint.
    Create,
    /// A client closes its handle.
    Close,
    /// A client sends a control request.
    DeviceControl(IoctlRequest),
    /// The service is to be deactivated.
    Unload,
    /// The timer is cancelled and no callback is still running.
    Drained,
}

/// Something the driver asks of the host.
#[derive(Clone, Copy, PartialEq, Eq, Debug)]
pub enum Action {
    /// Create the device, for buffered I/O, and report [`Event::DeviceCreated`].
    CreateDevice,
    /// Create the symbolic link and report [`Event::LinkCreated`].
    CreateSymbolicLink,
    /// Activation failed with `status`.  Delete the device if
    /// `delete_device` says so, and hand the status to the loader.
    Abort { status: i32, delete_device: bool },
    /// Activation succeeded.  Set the timer to fire after `due_time` and then
    /// every `period`.
    StartTimer { due_time: i64, period: i32 },
    /// Complete the request as given.
    Complete(Completion),
    /// Cancel the timer, wait until no callback is running, and report
    /// [`Event::Drained`].
    Drain,
    /// Delete the symbolic link, then the device.
    Unregister,
    /// The event is dealt with and asks nothing of the host.
    Nothing,
    /// The request reached an endpoint that is not active.
    Unavailable,
    /// The event has no place in the driver's present state; nothing
    /// changed.
    Ignored,
}

/// The driver as contracts see it.
pub enum DriverState {
    /// Nothing is registered and no block exists.
    Inactive,
    /// Activation waits for the device to be created.
    CreatingDevice,
    /// The device exists; activation waits for the link.
    CreatingLink,
    /// Device and link exist, and the block is armed.
    Active(SharedState),
    /// Deactivation waits for the timer to be cancelled and drained.
    Draining(SharedState),
}

impl DriverState {
    /// Whether a shared state block exists.
    pub open spec fn has_block(self) -> bool {
        self is Active || self is Draining
    }

    /// The block, where there is one.
    pub open spec fn block(self) -> SharedState {
        match self {
            DriverState::Active(block) => block,
            DriverState::Draining(block) => block,
            _ => SharedState::fresh(),
        }
    }

    /// Whether the device is registered with the host.
    pub open spec fn device_registered(self) -> bool {
        self is CreatingLink || self is Active || self is Draining
    }

    /// Whether the link is registered with the host.
    pub open spec fn link_registered(self) -> bool {
        self is Active || self is Draining
    }

    /// The invariant of the driver: where a block exists its counter counts
    /// its firings, its timer is armed and nobody holds its lock.
    pub open spec fn wf(self) -> bool {
        self.has_block() ==> {
            &&& self.block().counts_firings()
            &&& self.block().is_quiescent()
            &&& self.block().is_armed()
        }
    }
}

/// The block that activation makes: freshly made, and armed with the
/// service's schedule.
pub open spec fn activated_block() -> SharedState {
    SharedState::fresh().with_timer(
        Timer::Periodic { due_time: TIMER_DUE_TIME, period: TIMER_PERIOD },
    )
}

/// What the driver does with an event: the state it moves to and what it
/// asks of the host.
pub open spec fn step(state: DriverState, event: Event) -> (DriverState, Action) {
    match event {
        Event::Load => match state {
            DriverState::Inactive => (DriverState::CreatingDevice, Action::CreateDevice),
            _ => (state, Action::Ignored),
        },
        Event::DeviceCreated { status } => match state {
            DriverState::CreatingDevice => if status == STATUS_SUCCESS {
                (DriverState::CreatingLink, Action::CreateSymbolicLink)
            } else {
                (DriverState::Inactive, Action::Abort { status, delete_device: false })
            },
            _ => (state, Action::Ignored),
        },
        Event::LinkCreated { status } => match state {
            DriverState::CreatingLink => if status == STATUS_SUCCESS {
                (
                    DriverState::Active(activated_block()),
                    Action::StartTimer { due_time: TIMER_DUE_TIME, period: TIMER_PERIOD },
                )
            } else {
                (DriverState::Inactive, Action::Abort { status, delete_device: true })
            },
            _ => (state, Action::Ignored),
        },
        Event::TimerFired => match state {
            DriverState::Active(block) => (DriverState::Active(block.fired()), Action::Nothing),
            DriverState::Draining(block) => (
                DriverState::Draining(block.fired()),
                Action::Nothing,
            ),
            _ => (state, Action::Ignored),
        },
        Event::Create => match state {
            DriverState::Active(_) => (state, Action::Complete(acknowledgement())),
            _ => (state, Action::Unavailable),
        },
        Event::Close => match state {
            DriverState::Active(_) => (state, Action::Complete(acknowledgement())),
            _ => (state, Action::Unavailable),
        },
        Event::DeviceControl(request) => match state {
            DriverState::Active(block) => (
                state,
                Action::Complete(answer(request, block.counter)),
            ),
            _ => (state, Action::Unavailable),
        },
        Event::Unload => match state {
            DriverState::Active(block) => (DriverState::Draining(block), Action::Drain),
            _ => (state, Action::Ignored),
        },
        Event::Drained => match state {
            DriverState::Draining(_) => (DriverState::Inactive, Action::Unregister),
            _ => (state, Action::Ignored),
        },
    }
}

/// Where the driver stands, with the block it owns.
enum Stage {
    Inactive,
    CreatingDevice,
    CreatingLink,
    Active(DeviceExtension),
    Draining(DeviceExtension),
}

/// The lifecycle manager.  It owns the shared state block for as long as
/// one exists.
pub struct DriverObject {
    stage: Stage,
}

impl View for DriverObject {
    type V = DriverState;

    closed spec fn view(&self) -> DriverState {
        match self.stage {
            Stage::Inactive => DriverState::Inactive,
            Stage::CreatingDevice => DriverState::CreatingDevice,
            Stage::CreatingLink => DriverState::CreatingLink,
            Stage::Active(dev_ext) => DriverState::Active(dev_ext@),
            Stage::Draining(dev_ext) => DriverState::Draining(dev_ext@),
        }
    }
}

impl DriverObject {
    /// The invariant of the driver.
    pub open spec fn wf(&self) -> bool {
        self@.wf()
    }

    /// A driver that is not active.
    pub fn new() -> (driver: Self)
        ensures
            driver.wf(),
            driver@ == DriverState::Inactive,
    {
        DriverObject { stage: Stage::Inactive }
    }

    /// Whether the service is active: registered, armed and serving.
    pub fn is_active(&self) -> (active: bool)
        ensures
            active == (self@ is Active),
    {
        match &self.stage {
            Stage::Active(_) => true,
            _ => false,
        }
    }

    /// Whether a shared state block exists.
    pub fn has_block(&self) -> (present: bool)
        ensures
            present == self@.has_block(),
    {
        match &self.stage {
            Stage::Active(_) => true,
            Stage::Draining(_) => true,
            _ => false,
        }
    }

    /// Takes the stage out, leaving the driver inactive.
    fn take_stage(&mut self) -> (stage: Stage)
        ensures
            stage == old(self).stage,
            final(self).stage is Inactive,
    {
        let mut stage = Stage::Inactive;
        std::mem::swap(&mut self.stage, &mut stage);
        stage
    }

    /// Continues activation with the outcome of creating the device.
    ///
    /// On success the link is asked for.  On failure nothing is registered
    /// yet, so activation ends with the host's status and nothing to undo.
    pub fn device_created(&mut self, status: i32) -> (action: Action)
        requires
            old(self).wf(),
        ensures
            final(self).wf(),
            (final(self)@, action) == step(old(self)@, Event::DeviceCreated { status }),
    {
        match self.take_stage() {
            Stage::CreatingDevice => {
                if status == STATUS_SUCCESS {
                    self.stage = Stage::CreatingLink;
                    Action::CreateSymbolicLink
                } else {
                    Action::Abort { status, delete_device: false }
                }
            },
            stage => {
                self.stage = stage;
                Action::Ignored
            },
        }
    }

    /// Continues activation with the outcome of creating the link.
    ///
    /// On success the block is made and armed, and the host is asked to set
    /// the timer.  On failure the device is taken back: activation leaves
    /// nothing behind.
    pub fn link_created(&mut self, status: i32) -> (action: Action)
        requires
            old(self).wf(),
        ensures
            final(self).wf(),
            (final(self)@, action) == step(old(self)@, Event::LinkCreated { status }),
    {
        match self.take_stage() {
            Stage::CreatingLink => {
                if status == STATUS_SUCCESS {
                    let mut dev_ext = DeviceExtension::new();
                    dev_ext.arm(TIMER_DUE_TIME, TIMER_PERIOD);
                    self.stage = Stage::Active(dev_ext);
                    Action::StartTimer { due_time: TIMER_DUE_TIME, period: TIMER_PERIOD }
                } else {
                    Action::Abort { status, delete_device: true }
                }
            },
            stage => {
                self.stage = stage;
                Action::Ignored
            },
        }
    }

    /// Runs the timer's callback on the block, if there is one.
    pub fn timer_fired(&mut self, cx: &mut ExecutionContext) -> (action: Action)
        requires
            old(self).wf(),
            old(cx).is_elevated(),
        ensures
            final(self).wf(),
            (final(self)@, action) == step(old(self)@, Event::TimerFired),
            final(cx)@ == old(cx)@,
    {
        match &mut self.stage {
            Stage::Active(dev_ext) => {
                dpc_callback(dev_ext, cx);
                Action::Nothing
            },
            Stage::Draining(dev_ext) => {
                dpc_callback(dev_ext, cx);
                Action::Nothing
            },
            _ => Action::Ignored,
        }
    }

    /// Answers an open or a close.
    pub fn create_close(&self) -> (action: Action)
        ensures
            (self@, action) == step(self@, Event::Create),
            (self@, action) == step(self@, Event::Close),
    {
        match &self.stage {
            Stage::Active(_) => Action::Complete(dispatch_create_close()),
            _ => Action::Unavailable,
        }
    }

    /// Answers a control request.
    pub fn device_control(&mut self, cx: &mut ExecutionContext, request: IoctlRequest) -> (action:
        Action)
        requires
            old(self).wf(),
            old(cx).is_normal(),
        ensures
            final(self).wf(),
            (final(self)@, action) == step(old(self)@, Event::DeviceControl(request)),
            final(cx)@ == old(cx)@,
    {
        match &mut self.stage {
            Stage::Active(dev_ext) => Action::Complete(
                dispatch_device_control(dev_ext, cx, request),
            ),
            _ => Action::Unavailable,
        }
    }

    /// Finishes deactivation once the timer is cancelled and drained: the
    /// block is disarmed and given up, and the host is asked to take the
    /// registrations back.
    pub fn drained(&mut self) -> (action: Action)
        requires
            old(self).wf(),
        ensures
            final(self).wf(),
            (final(self)@, action) == step(old(self)@, Event::Drained),
    {
        match self.take_stage() {
            Stage::Draining(dev_ext) => {
                let mut dev_ext = dev_ext;
                dev_ext.disarm();
                dev_ext.destroy();
                Action::Unregister
            },
            stage => {
                self.stage = stage;
                Action::Ignored
            },
        }
    }

    /// Deals with any event.
    ///
    /// The callback must be delivered in the elevated tier and a control
    /// request in a normal context; no other event touches the lock.
    pub fn handle(&mut self, cx: &mut ExecutionContext, event: Event) -> (action: Action)
        requires
            old(self).wf(),
            event is TimerFired ==> old(cx).is_elevated(),
            event is DeviceControl ==> old(cx).is_normal(),
        ensures
            final(self).wf(),
            (final(self)@, action) == step(old(self)@, event),
            final(cx)@ == old(cx)@,
    {
        match event {
            Event::Load => driver_entry(self),
            Event::DeviceCreated { status } => self.device_created(status),
            Event::LinkCreated { status } => self.link_created(status),
            Event::TimerFired => self.timer_fired(cx),
            Event::Create => self.create_close(),
            Event::Close => self.create_close(),
            Event::DeviceControl(request) => self.device_control(cx, request),
            Event::Unload => driver_unload(self),
            Event::Drained => self.drained(),
        }
    }
}

/// Begins activation: asks the host to create the device.
///
/// A driver that is not inactive ignores the call.
pub fn driver_entry(driver: &mut DriverObject) -> (action: Action)
    requires
        old(driver).wf(),
    ensures
        final(driver).wf(),
        (final(driver)@, action) == step(old(driver)@, Event::Load),
{
    match driver.take_stage() {
        Stage::Inactive => {
            driver.stage = Stage::CreatingDevice;
            Action::CreateDevice
        },
        stage => {
            driver.stage = stage;
            Action::Ignored
        },
    }
}

/// Begins deactivation: asks the host to cancel the timer and to wait for
/// callbacks that still run.  The block stays until the host reports
/// [`Event::Drained`].
///
/// A driver that is not active has nothing to undo and ignores the call.
pub fn driver_unload(driver: &mut DriverObject) -> (action: Action)
    requires
        old(driver).wf(),
    ensures
        final(driver).wf(),
        (final(driver)@, action) == step(old(driver)@, Event::Unload),
{
    match driver.take_stage() {
        Stage::Active(dev_ext) => {
            driver.stage = Stage::Draining(dev_ext);
            Action::Drain
        },
        stage => {
            driver.stage = stage;
            Action::Ignored
        },
    }
}

} // verus!
