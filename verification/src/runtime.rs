//! The capability interface over a host runtime's clock and timer facility.
//!
//! The timeout logic never names a concrete runtime: it asks only for a
//! monotonic clock and a re-armable sleep operation, and any host timer
//! facility of that shape can be plugged in. Durations appear throughout as
//! `u64` nanosecond counts. These traits promise nothing that a proof could
//! lean on — what a clock returns is the host's business — so all timeout
//! guarantees are stated over the readings actually handed in.

use vstd::prelude::*;

verus! {

/// A re-armable sleep operation.
///
/// Created once per wait (registering with the host timer facility is the
/// expensive step) and then re-targeted cheaply as often as the deadline
/// moves.
pub trait Sleep {
    /// Re-target the sleep to complete no earlier than `timeout_ns`
    /// nanoseconds from now, without recreating it.
    fn reset(&mut self, timeout_ns: u64);

    /// Suspend the caller until the sleep completes.
    fn block(&mut self);
}

/// An instant of a monotonic clock.
pub trait Instant {
    /// Nanoseconds elapsed from `earlier` to `self`; zero if `earlier` is
    /// not in the past.
    fn duration_since(&self, earlier: &Self) -> u64;
}

/// A host runtime's clock and timer facility.
pub trait Runtime {
    /// Sleep operation type associated with this runtime.
    type Sleep: Sleep;

    /// Instant type associated with this runtime.
    type Instant: Instant;

    /// Create a new sleep operation that completes no earlier than
    /// `timeout_ns` nanoseconds from now.
    fn create_sleep(&self, timeout_ns: u64) -> Self::Sleep;

    /// Read the current monotonic time.
    fn now(&self) -> Self::Instant;
}

} // verus!
