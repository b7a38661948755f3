//! Verified core of a kernel-resident counter service.
//!
//! A periodic callback running at an elevated interrupt level increments a
//! 32-bit counter; clients read it through a buffered control request.  The
//! crate holds the service's state, its locking discipline, its request
//! handling and its lifecycle, each with a machine-checked contract.  Calls
//! into the host kernel are left to the embedding driver.
//!
//! - [`ioctl`]: how a control code is packed, and the one code recognized.
//! - [`irql`]: interrupt request levels and the context that carries one.
//! - [`spin_lock`]: the lock, with one acquisition mode for each tier.
//! - [`request`]: statuses, completions and the wire form of the counter.
//! - [`device`]: the shared state block, the timer callback and the
//!   dispatch routines.
//! - [`driver`]: activation, deactivation and the routing of events.
//! - [`trace`]: theorems over whole sequences of events.

pub mod device;
pub mod driver;
pub mod ioctl;
pub mod irql;
pub mod request;
pub mod spin_lock;
pub mod trace;
