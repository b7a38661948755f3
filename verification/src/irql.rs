//! Interrupt request levels and the execution context that carries one.
//!
//! The service distinguishes two tiers.  Code below [`DISPATCH_LEVEL`] runs
//! in a normal context and may wait.  Code at [`DISPATCH_LEVEL`] runs in an
//! elevated context: it preempts normal work and must never wait.

use vstd::prelude::*;

verus! {

/// Level of ordinary thread execution.
pub const PASSIVE_LEVEL: u8 = 0;

/// Level at which asynchronous procedure calls are masked.
pub const APC_LEVEL: u8 = 1;

/// Level of deferred procedure calls: the elevated tier.
pub const DISPATCH_LEVEL: u8 = 2;

/// The interrupt request level of the code that is running.
///
/// Operations that change the level take the context by mutable reference,
/// so a contract can say at which level its caller runs and at which level it
/// is left.
pub struct ExecutionContext {
    irql: u8,
}

impl View for ExecutionContext {
    type V = u8;

    closed spec fn view(&self) -> u8 {
        self.irql
    }
}

impl ExecutionContext {
    /// A context running at `irql`.
    pub fn new(irql: u8) -> (cx: Self)
        ensures
            cx@ == irql,
    {
        ExecutionContext { irql }
    }

    /// The current level.
    pub fn irql(&self) -> (irql: u8)
        ensures
            irql == self@,
    {
        self.irql
    }

    /// Whether the context is in the normal tier.
    pub open spec fn is_normal(&self) -> bool {
        self@ < DISPATCH_LEVEL
    }

    /// Whether the context is in the elevated tier.
    pub open spec fn is_elevated(&self) -> bool {
        self@ == DISPATCH_LEVEL
    }

    /// Raises the level to the elevated tier and returns the level left.
    pub(crate) fn raise_to_dispatch(&mut self) -> (old_irql: u8)
        requires
            old(self).is_normal(),
        ensures
            old_irql == old(self)@,
            final(self)@ == DISPATCH_LEVEL,
    {
        let old_irql: u8 = self.irql;
        self.irql = DISPATCH_LEVEL;
        old_irql
    }

    /// Lowers the level from the elevated tier to `irql`.
    pub(crate) fn lower_to(&mut self, irql: u8)
        requires
            old(self).is_elevated(),
            irql <= DISPATCH_LEVEL,
        ensures
            final(self)@ == irql,
    {
        self.irql = irql;
    }
}

} // verus!
