//! The mutual-exclusion lock that guards the counter.
//!
//! The lock has two acquisition modes, one for each tier of execution.  A
//! normal context takes it with [`SpinLock::lock`], which raises the caller to
//! [`DISPATCH_LEVEL`] for as long as the lock is held.  An elevated context
//! takes it with [`SpinLock::lock_at_dpc`], which leaves the level alone.
//! Either returns a [`SpinLockGuard`]; giving the guard back with
//! [`SpinLockGuard::release`] frees the lock and undoes what the acquisition
//! did to the level.
//!
//! Hold times are a single read or increment, so acquiring a lock that is
//! held is not a wait the contracts provide for: both modes require a free
//! lock.

use crate::irql::{ExecutionContext, DISPATCH_LEVEL};
use vstd::prelude::*;

verus! {

/// The mode in which a lock was acquired.
#[derive(Clone, Copy, PartialEq, Eq, Debug, Structural)]
pub enum SpinLockLevel {
    /// Acquired from a normal context, which was raised to the elevated tier.
    Dispatch,
    /// Acquired from a context already in the elevated tier.
    Dpc,
}

/// What a lock is doing.
#[derive(Clone, Copy, PartialEq, Eq, Debug, Structural)]
pub enum LockState {
    /// Created but not yet initialized; it cannot be acquired.
    Uninitialized,
    /// Initialized and held by nobody.
    Free,
    /// Held, in the given mode, by a holder that ran at `old_irql` before.
    Held { level: SpinLockLevel, old_irql: u8 },
}

/// A spin lock.
pub struct SpinLock {
    state: LockState,
}

/// Proof that a lock is held, and the record of how to give it back.
///
/// A guard is neither `Clone` nor `Copy`: a lock can be released once for
/// each time it was acquired.
pub struct SpinLockGuard {
    old_irql: u8,
    level: SpinLockLevel,
}

impl View for SpinLock {
    type V = LockState;

    closed spec fn view(&self) -> LockState {
        self.state
    }
}

impl SpinLock {
    /// Whether a context at level `irql` may call [`SpinLock::lock`].
    pub open spec fn admits_lock(irql: u8) -> bool {
        irql < DISPATCH_LEVEL
    }

    /// Whether a context at level `irql` may call [`SpinLock::lock_at_dpc`].
    pub open spec fn admits_lock_at_dpc(irql: u8) -> bool {
        irql == DISPATCH_LEVEL
    }

    /// Creates a lock that is not yet initialized.
    pub fn new() -> (lock: Self)
        ensures
            lock@ == LockState::Uninitialized,
    {
        SpinLock { state: LockState::Uninitialized }
    }

    /// Initializes the lock, leaving it free.
    ///
    /// Initializing a lock that somebody holds would take it from its holder,
    /// so the lock must not be held.
    pub fn init(&mut self)
        requires
            !(old(self)@ is Held),
        ensures
            final(self)@ == LockState::Free,
    {
        self.state = LockState::Free;
    }

    /// Whether the lock is held.
    pub fn is_locked(&self) -> (held: bool)
        ensures
            held == (self@ is Held),
    {
        match self.state {
            LockState::Held { .. } => true,
            _ => false,
        }
    }

    /// Whether the lock is initialized and free.
    pub fn is_free(&self) -> (free: bool)
        ensures
            free == (self@ == LockState::Free),
    {
        match self.state {
            LockState::Free => true,
            _ => false,
        }
    }

    /// Acquires the lock from a normal context.
    ///
    /// The caller is raised to [`DISPATCH_LEVEL`]; the guard remembers the
    /// level it came from.
    pub fn lock(&mut self, cx: &mut ExecutionContext) -> (guard: SpinLockGuard)
        requires
            old(self)@ == LockState::Free,
            Self::admits_lock(old(cx)@),
        ensures
            final(self)@ == (LockState::Held { level: SpinLockLevel::Dispatch, old_irql: old(cx)@ }),
            final(cx)@ == DISPATCH_LEVEL,
            guard.level_of() == SpinLockLevel::Dispatch,
            guard.saved_irql() == old(cx)@,
            guard.holds(final(self)),
    {
        let old_irql: u8 = cx.raise_to_dispatch();
        self.state = LockState::Held { level: SpinLockLevel::Dispatch, old_irql };
        SpinLockGuard { old_irql, level: SpinLockLevel::Dispatch }
    }

    /// Acquires the lock from a context that already runs at
    /// [`DISPATCH_LEVEL`].
    ///
    /// The level is not touched, and the guard saves none.
    pub fn lock_at_dpc(&mut self, cx: &ExecutionContext) -> (guard: SpinLockGuard)
        requires
            old(self)@ == LockState::Free,
            Self::admits_lock_at_dpc(cx@),
        ensures
            final(self)@ == (LockState::Held { level: SpinLockLevel::Dpc, old_irql: 0 }),
            guard.level_of() == SpinLockLevel::Dpc,
            guard.saved_irql() == 0,
            guard.holds(final(self)),
    {
        self.state = LockState::Held { level: SpinLockLevel::Dpc, old_irql: 0 };
        SpinLockGuard { old_irql: 0, level: SpinLockLevel::Dpc }
    }
}

impl SpinLockGuard {
    /// The mode in which the guarded lock was acquired.
    pub closed spec fn level_of(&self) -> SpinLockLevel {
        self.level
    }

    /// The level the holder ran at before a [`SpinLockLevel::Dispatch`]
    /// acquisition; zero for a [`SpinLockLevel::Dpc`] one.
    pub closed spec fn saved_irql(&self) -> u8 {
        self.old_irql
    }

    /// Whether a lock in state `state` is held through this guard.
    pub open spec fn witnesses(&self, state: LockState) -> bool {
        &&& state == (LockState::Held { level: self.level_of(), old_irql: self.saved_irql() })
        &&& self.level_of() == SpinLockLevel::Dispatch ==> self.saved_irql() < DISPATCH_LEVEL
        &&& self.level_of() == SpinLockLevel::Dpc ==> self.saved_irql() == 0
    }

    /// Whether `lock` is held through this guard.
    pub open spec fn holds(&self, lock: &SpinLock) -> bool {
        self.witnesses(lock@)
    }

    /// The level the context returns to when a guard with these contents is
    /// released at level `irql`.
    pub open spec fn level_after_release(&self, irql: u8) -> u8 {
        match self.level_of() {
            SpinLockLevel::Dispatch => self.saved_irql(),
            SpinLockLevel::Dpc => irql,
        }
    }

    /// The mode in which the guarded lock was acquired.
    pub fn level(&self) -> (level: SpinLockLevel)
        ensures
            level == self.level_of(),
    {
        self.level
    }

    /// The level saved at acquisition.
    pub fn old_irql(&self) -> (irql: u8)
        ensures
            irql == self.saved_irql(),
    {
        self.old_irql
    }

    /// Releases the lock.
    ///
    /// A lock taken from a normal context returns its holder to the level
    /// saved in the guard.  A lock taken in the elevated tier leaves the level
    /// as it is.
    pub fn release(self, lock: &mut SpinLock, cx: &mut ExecutionContext)
        requires
            self.holds(old(lock)),
            old(cx).is_elevated(),
        ensures
            final(lock)@ == LockState::Free,
            final(cx)@ == self.level_after_release(old(cx)@),
    {
        match self.level {
            SpinLockLevel::Dispatch => {
                cx.lower_to(self.old_irql);
            },
            SpinLockLevel::Dpc => {},
        }
        lock.state = LockState::Free;
    }
}

/// At every level at most one acquisition mode is admissible, so the two
/// are never interchangeable at a call site.
pub proof fn lemma_modes_are_exclusive(irql: u8)
    ensures
        !(SpinLock::admits_lock(irql) && SpinLock::admits_lock_at_dpc(irql)),
{
}

} // verus!
