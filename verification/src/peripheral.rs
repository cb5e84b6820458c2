//! The shared peripheral handle: the serialization point for the single
//! physical analog converter.
//!
//! Every channel read must happen while the handle is held, and the
//! handle is non-reentrant: a task must not acquire it while already
//! holding it.  In the running system the handle fronts an asynchronous
//! mutex — a second acquirer suspends until the first releases — and a
//! verified caller shows the same discipline by meeting `acquire`'s
//! precondition: it never asks while the handle is held, so it can never
//! deadlock on itself.  The handle is released before a task sleeps, so
//! no task starves the others across its sleep interval.

use vstd::prelude::*;

verus! {

/// Why the converter could not produce a sample for a requested channel
/// this cycle.  Failures are not retried by the handle; the requesting
/// task simply goes without that sample for the cycle.
#[derive(Clone, Copy, Debug, PartialEq, Eq, Structural)]
pub enum ReadError {
    /// The hardware was busy.
    Busy,
    /// The conversion timed out.
    Timeout,
    /// The requested channel does not exist.
    InvalidChannel,
}

/// Exclusive-access token for the one physical converter.
pub struct PeripheralHandle {
    held: bool,
}

impl PeripheralHandle {
    /// Whether some task currently holds the converter.
    pub closed spec fn is_held(&self) -> bool {
        self.held
    }

    /// The process-wide handle, created once at startup, free.
    pub fn new() -> (h: PeripheralHandle)
        ensures
            !h.is_held(),
    {
        PeripheralHandle { held: false }
    }

    /// Takes exclusive access to the converter.  Non-reentrant: the
    /// caller must not already hold it.
    pub fn acquire(&mut self)
        requires
            !old(self).is_held(),
        ensures
            final(self).is_held(),
    {
        self.held = true;
    }

    /// Gives the converter back; the next waiting task may proceed.
    pub fn release(&mut self)
        requires
            old(self).is_held(),
        ensures
            !final(self).is_held(),
    {
        self.held = false;
    }
}

} // verus!
