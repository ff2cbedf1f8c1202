//! A small preemptive kernel model for a dual-core microcontroller.
//!
//! Threads communicate through per-thread mailboxes in an actor style rather
//! than through shared-memory locking at the application level.  The kernel
//! state lives in one explicitly owned [`thread::ThreadingState`] value; every
//! scheduling, lifecycle, tick-accounting and mailbox operation is a verified
//! function of that state.  The hardware edges (trap entry, timer reads,
//! spinlock registers, the register save/restore itself) stay outside; the
//! decisions they act on are made here.

use vstd::prelude::*;

pub mod genserver;
pub mod msg;
pub mod registry;
pub mod sync;
pub mod systick;
pub mod thread;

verus! {

/// The error taxonomy of the kernel.
///
/// Recoverable conditions are returned to the caller as one of these values;
/// there is no automatic retry anywhere in the core.
#[derive(Clone, Copy, Debug, PartialEq, Eq, Structural)]
pub enum ErrorKind {
    /// The thread table is full, or no free lock slot is available.
    ResourceExhausted,
    /// An unprivileged thread attempted thread creation after boot.
    PermissionDenied,
    /// A supplied stack is too small to hold the initial register image.
    InvalidConfiguration,
    /// An envelope was requested as a payload kind it does not carry.
    TypeMismatch,
    /// The tick timer was enabled twice.
    DoubleInitialization,
}

} // verus!
