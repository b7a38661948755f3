//! The shared state block and the two routines that touch its counter.
//!
//! A [`DeviceExtension`] holds the counter, the periodic timer that drives
//! it and the lock that guards it.  [`dpc_callback`] is the timer's deferred
//! routine: it runs in the elevated tier and adds one to the counter.
//! [`dispatch_device_control`] answers a client's query from a normal
//! context.  Both take the lock for exactly as long as they read or write
//! the counter, and both leave the lock free and the caller's level as they
//! found it.

use crate::ioctl::IOCTL_GET_COUNTER;
use crate::irql::{ExecutionContext, DISPATCH_LEVEL};
use crate::request::{counter_to_le_bytes, le_bytes, Completion, Status, COUNTER_SIZE};
use crate::spin_lock::{LockState, SpinLock, SpinLockGuard, SpinLockLevel};
use vstd::prelude::*;

verus! {

/// Delay before the first firing, in units of 100 nanoseconds; negative
/// values are relative to the moment the timer is set.  One second.
pub const TIMER_DUE_TIME: i64 = -10_000_000;

/// Time between firings, in milliseconds.  One second.
pub const TIMER_PERIOD: i32 = 1000;

/// The periodic schedule of a block.
#[derive(Clone, Copy, PartialEq, Eq, Debug, Structural)]
pub enum Timer {
    /// No firing is scheduled.
    Idle,
    /// The callback fires once after `due_time` and then every `period`.
    Periodic { due_time: i64, period: i32 },
}

/// What a control request carries, as far as the service reads it.
#[derive(Clone, Copy, PartialEq, Eq, Debug, Structural)]
pub struct IoctlRequest {
    /// The control code.
    pub io_control_code: u32,
    /// Capacity of the caller's output buffer, in bytes.
    pub output_buffer_length: u32,
    /// Whether the output buffer can be written.
    pub output_buffer_usable: bool,
}

/// The block as contracts see it.
pub struct SharedState {
    /// Current value of the counter.
    pub counter: u32,
    /// Number of times the callback has run since the block was made.
    pub firings: nat,
    /// The periodic schedule.
    pub timer: Timer,
    /// What the lock is doing.
    pub lock: LockState,
}

/// The successor of a counter value: one more, and zero after the largest.
pub open spec fn wrapping_inc(counter: u32) -> u32 {
    if counter == u32::MAX {
        0
    } else {
        (counter + 1) as u32
    }
}

impl SharedState {
    /// A block as it is made: counter at zero, no schedule, lock free.
    pub open spec fn fresh() -> SharedState {
        SharedState { counter: 0, firings: 0, timer: Timer::Idle, lock: LockState::Free }
    }

    /// The block after one run of the callback.
    pub open spec fn fired(self) -> SharedState {
        SharedState { counter: wrapping_inc(self.counter), firings: self.firings + 1, ..self }
    }

    /// The block with its schedule replaced.
    pub open spec fn with_timer(self, timer: Timer) -> SharedState {
        SharedState { timer, ..self }
    }

    /// The block with its lock in another state.
    pub open spec fn with_lock(self, lock: LockState) -> SharedState {
        SharedState { lock, ..self }
    }

    /// The counter is the number of firings, reduced modulo 2^32.
    pub open spec fn counts_firings(self) -> bool {
        self.counter == self.firings % 0x1_0000_0000
    }

    /// Whether nobody holds the lock and the lock is usable.
    pub open spec fn is_quiescent(self) -> bool {
        self.lock == LockState::Free
    }

    /// Whether a schedule is set.
    pub open spec fn is_armed(self) -> bool {
        self.timer is Periodic
    }
}

/// The status with which a control request is completed.
pub open spec fn status_of(request: IoctlRequest) -> Status {
    if request.io_control_code != IOCTL_GET_COUNTER {
        Status::NotImplemented
    } else if request.output_buffer_length < COUNTER_SIZE {
        Status::BufferTooSmall
    } else if !request.output_buffer_usable {
        Status::InvalidOutput
    } else {
        Status::Success
    }
}

/// The completion of a control request when the counter stands at
/// `counter`: the status that the request earns, and with success the
/// counter's four bytes, with anything else no bytes at all.
pub open spec fn answer(request: IoctlRequest, counter: u32) -> Completion {
    if status_of(request) == Status::Success {
        Completion { status: Status::Success, information: 4, output: Some(le_bytes(counter)) }
    } else {
        Completion { status: status_of(request), information: 0, output: None }
    }
}

/// The completion of an open or a close: success, with nothing handed back.
pub open spec fn acknowledgement() -> Completion {
    Completion { status: Status::Success, information: 0, output: None }
}

/// The shared state block: one for each active service.
pub struct DeviceExtension {
    timer: Timer,
    spin_lock: SpinLock,
    counter: u32,
    firings: Ghost<nat>,
}

impl View for DeviceExtension {
    type V = SharedState;

    closed spec fn view(&self) -> SharedState {
        SharedState {
            counter: self.counter,
            firings: self.firings@,
            timer: self.timer,
            lock: self.spin_lock@,
        }
    }
}

impl DeviceExtension {
    /// The invariant of a block: its counter counts its firings.
    pub open spec fn wf(&self) -> bool {
        self@.counts_firings()
    }

    /// Makes a block: counter at zero, lock initialized and free, no
    /// schedule.
    pub fn new() -> (dev_ext: Self)
        ensures
            dev_ext.wf(),
            dev_ext@ == SharedState::fresh(),
    {
        let mut spin_lock = SpinLock::new();
        spin_lock.init();
        DeviceExtension { timer: Timer::Idle, spin_lock, counter: 0, firings: Ghost(0) }
    }

    /// Returns the block to the state in which it was made.
    ///
    /// The block must have no schedule and its lock no holder: a callback
    /// that still fires, or a holder that still releases, would find a block
    /// it does not know.
    pub fn init(&mut self)
        requires
            !old(self)@.is_armed(),
            !(old(self)@.lock is Held),
        ensures
            final(self).wf(),
            final(self)@ == SharedState::fresh(),
    {
        self.timer = Timer::Idle;
        self.spin_lock = SpinLock::new();
        self.spin_lock.init();
        self.counter = 0;
        self.firings = Ghost(0);
    }

    /// Sets the periodic schedule.
    ///
    /// A block is armed once; arming an armed block is not provided for.
    pub fn arm(&mut self, due_time: i64, period: i32)
        requires
            !old(self)@.is_armed(),
        ensures
            final(self)@ == old(self)@.with_timer(Timer::Periodic { due_time, period }),
    {
        self.timer = Timer::Periodic { due_time, period };
    }

    /// Records that the schedule is cancelled and that no callback is still
    /// running.
    pub fn disarm(&mut self)
        ensures
            final(self)@ == old(self)@.with_timer(Timer::Idle),
    {
        self.timer = Timer::Idle;
    }

    /// Gives the block up.  It must be disarmed, and nobody may hold its
    /// lock.
    pub fn destroy(self)
        requires
            !self@.is_armed(),
            !(self@.lock is Held),
    {
    }

    /// The schedule.
    pub fn timer(&self) -> (timer: Timer)
        ensures
            timer == self@.timer,
    {
        self.timer
    }

    /// Whether a schedule is set.
    pub fn is_armed(&self) -> (armed: bool)
        ensures
            armed == self@.is_armed(),
    {
        match self.timer {
            Timer::Periodic { .. } => true,
            Timer::Idle => false,
        }
    }

    /// Whether the lock is initialized and free.
    pub fn is_quiescent(&self) -> (quiescent: bool)
        ensures
            quiescent == self@.is_quiescent(),
    {
        self.spin_lock.is_free()
    }

    /// Takes the lock from a normal context.
    pub fn lock(&mut self, cx: &mut ExecutionContext) -> (guard: SpinLockGuard)
        requires
            old(self)@.is_quiescent(),
            SpinLock::admits_lock(old(cx)@),
        ensures
            final(self)@ == old(self)@.with_lock(
                LockState::Held { level: SpinLockLevel::Dispatch, old_irql: old(cx)@ },
            ),
            final(cx)@ == DISPATCH_LEVEL,
            guard.level_of() == SpinLockLevel::Dispatch,
            guard.saved_irql() == old(cx)@,
            guard.witnesses(final(self)@.lock),
    {
        self.spin_lock.lock(cx)
    }

    /// Takes the lock from the elevated tier.
    pub fn lock_at_dpc(&mut self, cx: &ExecutionContext) -> (guard: SpinLockGuard)
        requires
            old(self)@.is_quiescent(),
            SpinLock::admits_lock_at_dpc(cx@),
        ensures
            final(self)@ == old(self)@.with_lock(
                LockState::Held { level: SpinLockLevel::Dpc, old_irql: 0 },
            ),
            guard.level_of() == SpinLockLevel::Dpc,
            guard.saved_irql() == 0,
            guard.witnesses(final(self)@.lock),
    {
        self.spin_lock.lock_at_dpc(cx)
    }

    /// Gives the lock back.
    pub fn unlock(&mut self, guard: SpinLockGuard, cx: &mut ExecutionContext)
        requires
            guard.witnesses(old(self)@.lock),
            old(cx).is_elevated(),
        ensures
            final(self)@ == old(self)@.with_lock(LockState::Free),
            final(cx)@ == guard.level_after_release(old(cx)@),
    {
        guard.release(&mut self.spin_lock, cx);
    }

    /// Reads the counter.  The guard shows that the caller holds the lock.
    pub fn read_counter(&self, guard: &SpinLockGuard) -> (counter: u32)
        requires
            guard.witnesses(self@.lock),
        ensures
            counter == self@.counter,
    {
        self.counter
    }

    /// Adds one to the counter, wrapping to zero after the largest value.
    /// The guard shows that the caller holds the lock.
    pub fn increment_counter(&mut self, guard: &SpinLockGuard)
        requires
            old(self).wf(),
            guard.witnesses(old(self)@.lock),
        ensures
            final(self).wf(),
            final(self)@ == old(self)@.fired(),
    {
        self.counter = self.counter.wrapping_add(1);
        self.firings = Ghost((self.firings@ + 1) as nat);
    }
}

/// The timer's deferred routine: adds one to the counter under the lock.
///
/// It runs in the elevated tier, takes the lock in the mode of that tier,
/// and neither waits nor changes the level.  It runs only on a block whose
/// schedule is set: once a block is disarmed no callback touches it.
pub fn dpc_callback(dev_ext: &mut DeviceExtension, cx: &mut ExecutionContext)
    requires
        old(dev_ext).wf(),
        old(dev_ext)@.is_armed(),
        old(dev_ext)@.is_quiescent(),
        old(cx).is_elevated(),
    ensures
        final(dev_ext).wf(),
        final(dev_ext)@ == old(dev_ext)@.fired(),
        final(cx)@ == old(cx)@,
{
    let guard = dev_ext.lock_at_dpc(cx);
    dev_ext.increment_counter(&guard);
    dev_ext.unlock(guard, cx);
}

/// Completes an open or a close: both succeed and hand nothing back.
pub fn dispatch_create_close() -> (completion: Completion)
    ensures
        completion == acknowledgement(),
{
    Completion { status: Status::Success, information: 0, output: None }
}

/// Completes a control request.
///
/// The counter query reads the counter under the lock, which it takes in
/// the mode of a normal context, and answers with the value's four bytes if
/// the output buffer has room for them and can be written: a buffer of
/// exactly four bytes is enough, one of three or fewer is too small.  Any
/// other code is not implemented.  A request that fails hands back no bytes.
/// The block and the caller's level are left as they were.
pub fn dispatch_device_control(
    dev_ext: &mut DeviceExtension,
    cx: &mut ExecutionContext,
    request: IoctlRequest,
) -> (completion: Completion)
    requires
        old(dev_ext).wf(),
        old(dev_ext)@.is_quiescent(),
        old(cx).is_normal(),
    ensures
        completion == answer(request, old(dev_ext)@.counter),
        request.io_control_code != IOCTL_GET_COUNTER ==> completion.status
            == Status::NotImplemented,
        request.io_control_code == IOCTL_GET_COUNTER && request.output_buffer_length
            < COUNTER_SIZE ==> completion.status == Status::BufferTooSmall,
        request.io_control_code == IOCTL_GET_COUNTER && request.output_buffer_length
            >= COUNTER_SIZE && !request.output_buffer_usable ==> completion.status
            == Status::InvalidOutput,
        request.io_control_code == IOCTL_GET_COUNTER && request.output_buffer_length
            >= COUNTER_SIZE && request.output_buffer_usable ==> completion.status
            == Status::Success && completion.information == COUNTER_SIZE && completion.output
            == Some(le_bytes(old(dev_ext)@.counter)),
        completion.status != Status::Success ==> completion.information == 0
            && completion.output is None,
        final(dev_ext)@ == old(dev_ext)@,
        final(dev_ext).wf(),
        final(cx)@ == old(cx)@,
{
    if request.io_control_code != IOCTL_GET_COUNTER {
        return Completion { status: Status::NotImplemented, information: 0, output: None };
    }
    let guard = dev_ext.lock(cx);
    let counter: u32 = dev_ext.read_counter(&guard);
    dev_ext.unlock(guard, cx);
    if request.output_buffer_length < COUNTER_SIZE {
        Completion { status: Status::BufferTooSmall, information: 0, output: None }
    } else if !request.output_buffer_usable {
        Completion { status: Status::InvalidOutput, information: 0, output: None }
    } else {
        Completion {
            status: Status::Success,
            information: 4,
            output: Some(counter_to_le_bytes(counter)),
        }
    }
}

} // verus!
