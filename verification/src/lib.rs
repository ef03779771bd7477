//! A resettable, shareable timeout for asynchronous programs.
//!
//! A single timer that several concurrent operations can keep pushing
//! forward ("keep alive") without owning it. All timeout state is a pair of
//! nanosecond counters measured from a fixed epoch instant:
//!
//! - the deadline, as nanoseconds from the epoch, and
//! - the default duration added to "now" on every [`Timeout::reset`].
//!
//! The asynchronous wait loop itself must live with the host runtime (it
//! suspends on the runtime's timer facility), but every decision it takes is
//! a function of those counters and a clock reading, and those decision
//! functions live here: [`remaining_ns`] says when a wait is over and how
//! long to re-arm the sleep for, [`next_deadline_ns`] says where a reset
//! moves the deadline. A driver performs the sleeps and hands the clock
//! readings back.

use vstd::prelude::*;

pub mod runtime;
pub mod wrapper;

use crate::runtime::{Instant, Runtime};

verus! {

/// A shared timeout.
///
/// One timer that a whole session shares: any participant may push the
/// deadline forward with [`Timeout::reset`], while a single long-lived wait
/// sleeps towards whatever deadline currently stands.
///
/// All state is relative to one `epoch` instant captured at construction and
/// never rebased: the deadline and the default duration are plain nanosecond
/// counts, so every operation here is ordinary 64-bit arithmetic on them,
/// and every contract pins its exact outcome. Clock readings enter as
/// explicit `elapsed_ns` arguments — nanoseconds from the epoch, as
/// [`Timeout::elapsed`] returns them — so each guarantee holds for whatever
/// reading the clock produced.
pub struct Timeout<R: Runtime> {
    runtime: R,
    epoch: R::Instant,
    timeout_from_epoch_ns: u64,
    default_timeout_ns: u64,
}

impl<R: Runtime> Timeout<R> {
    /// The current deadline, in nanoseconds from the epoch.
    pub closed spec fn deadline_ns(&self) -> u64 {
        self.timeout_from_epoch_ns
    }

    /// The duration a reset adds to the clock reading, in nanoseconds.
    pub closed spec fn default_ns(&self) -> u64 {
        self.default_timeout_ns
    }

    /// The epoch instant captured at construction: the zero point of every
    /// nanosecond count here. It is immutable for the object's whole life —
    /// every mutating operation ensures it untouched — so a deadline always
    /// means the same point in time, the epoch plus [`Timeout::deadline_ns`]
    /// nanoseconds.
    pub closed spec fn epoch_spec(&self) -> R::Instant {
        self.epoch
    }

    /// The runtime bound at construction, likewise never replaced.
    pub closed spec fn runtime_spec(&self) -> R {
        self.runtime
    }

    /// Whether the timeout has expired by the clock reading `elapsed_ns`:
    /// the deadline has been reached or passed, and a wait observing this
    /// reading is over.
    pub open spec fn is_expired_at(&self, elapsed_ns: u64) -> bool {
        elapsed_ns >= self.deadline_ns()
    }

    /// The remaining time of a wait observing the clock reading
    /// `elapsed_ns`, `None` once the deadline has passed.
    pub open spec fn remaining_ns_at(&self, elapsed_ns: u64) -> Option<u64> {
        spec_remaining_ns(self.deadline_ns(), elapsed_ns)
    }

    /// Create a new timeout that expires `default_timeout_ns` nanoseconds
    /// after the instant of construction.
    ///
    /// The epoch is the runtime's clock reading at this moment, so the timer
    /// starts already armed for one default period.
    pub fn new(runtime: R, default_timeout_ns: u64) -> (t: Self)
        ensures
            t.deadline_ns() == default_timeout_ns,
            t.default_ns() == default_timeout_ns,
            t.runtime_spec() == runtime,
    {
        let epoch = runtime.now();
        Timeout {
            runtime,
            epoch,
            timeout_from_epoch_ns: default_timeout_ns,
            default_timeout_ns,
        }
    }

    /// Nanoseconds elapsed since the epoch, read from the runtime's clock.
    ///
    /// Nothing can be promised of a clock reading; the contracts of
    /// [`Timeout::reset`] and [`Timeout::timeout_duration`] say what each
    /// operation does with whatever reading they are handed.
    pub fn elapsed(&self) -> u64 {
        self.runtime.now().duration_since(&self.epoch)
    }

    /// Reset the timeout: move the deadline to the clock reading
    /// `elapsed_ns` plus the default duration.
    ///
    /// The move is unconditional — no comparison with the old deadline — so
    /// after the default was shortened a reset can pull the deadline back,
    /// and with the default unchanged a reset always pushes it forward.
    /// A deadline past `u64::MAX` nanoseconds from the epoch (about 584
    /// years) is a programming error, ruled out up front.
    pub fn reset(&mut self, elapsed_ns: u64)
        requires
            elapsed_ns + old(self).default_ns() <= u64::MAX,
        ensures
            final(self).deadline_ns() == elapsed_ns + old(self).default_ns(),
            final(self).default_ns() == old(self).default_ns(),
            final(self).epoch_spec() == old(self).epoch_spec(),
            final(self).runtime_spec() == old(self).runtime_spec(),
    {
        self.timeout_from_epoch_ns = next_deadline_ns(elapsed_ns, self.default_timeout_ns);
    }

    /// The default timeout: the duration a reset re-arms the timer for, in
    /// nanoseconds.
    pub fn default_timeout(&self) -> (d: u64)
        ensures
            d == self.default_ns(),
    {
        self.default_timeout_ns
    }

    /// Change the default timeout.
    ///
    /// The currently armed deadline stands untouched — a shorter default
    /// never triggers an early expiry by itself; only resets from here on
    /// use the new duration.
    pub fn set_default_timeout(&mut self, default_timeout_ns: u64)
        ensures
            final(self).default_ns() == default_timeout_ns,
            final(self).deadline_ns() == old(self).deadline_ns(),
            final(self).epoch_spec() == old(self).epoch_spec(),
            final(self).runtime_spec() == old(self).runtime_spec(),
    {
        self.default_timeout_ns = default_timeout_ns;
    }

    /// Decide one step of a wait, against the clock reading `elapsed_ns`.
    ///
    /// `None` exactly when the timeout has expired: the wait is over, and no
    /// sleep needs to be created or re-armed. `Some(r)` when the deadline is
    /// still `r` nanoseconds ahead: the wait's sleep must be re-armed for
    /// `r` and the decision retried on the next wake-up, against the
    /// deadline standing then — a concurrent reset may have moved it.
    pub fn timeout_duration(&self, elapsed_ns: u64) -> (r: Option<u64>)
        ensures
            r == self.remaining_ns_at(elapsed_ns),
            r is None <==> self.is_expired_at(elapsed_ns),
    {
        remaining_ns(self.timeout_from_epoch_ns, elapsed_ns)
    }
}

/// The remaining time of a wait, `None` once the deadline has passed.
///
/// This is the rule the wait loop follows on every wake-up, applied to the
/// deadline it reads at that moment.
pub open spec fn spec_remaining_ns(deadline_ns: u64, elapsed_ns: u64) -> Option<u64> {
    if elapsed_ns < deadline_ns {
        Some((deadline_ns - elapsed_ns) as u64)
    } else {
        None
    }
}

/// Decide one step of a wait: how much longer to sleep for, given the
/// deadline and a clock reading, both in nanoseconds from the same epoch.
///
/// Returns `None` exactly when the deadline has been reached or passed: the
/// wait is over and no sleep needs to be created or re-armed. Otherwise the
/// sleep must be re-armed for the returned number of nanoseconds and the
/// decision retried on the next wake-up, against the deadline current then.
pub fn remaining_ns(deadline_ns: u64, elapsed_ns: u64) -> (r: Option<u64>)
    ensures
        r == spec_remaining_ns(deadline_ns, elapsed_ns),
        r is None <==> elapsed_ns >= deadline_ns,
{
    if elapsed_ns < deadline_ns {
        Some(deadline_ns - elapsed_ns)
    } else {
        None
    }
}

/// Law: a timeout constructed with default duration `default_timeout_ns`
/// and never reset is not expired at any clock reading short of that
/// duration, so a wait cannot be over before the default has elapsed.
///
/// [`Timeout::new`] establishes the hypothesis: the initial deadline is the
/// default duration itself.
pub proof fn lemma_expiry_lower_bound<R: Runtime>(t: Timeout<R>, default_timeout_ns: u64, elapsed_ns: u64)
    requires
        t.deadline_ns() == default_timeout_ns,
        elapsed_ns < default_timeout_ns,
    ensures
        !t.is_expired_at(elapsed_ns),
        t.remaining_ns_at(elapsed_ns) == Some((default_timeout_ns - elapsed_ns) as u64),
{
}

/// Law: a reset at clock reading `reset_elapsed_ns` arms the timer for one
/// whole default duration beyond that reading — the timeout is not expired
/// at any earlier reading, so a wait pending across the reset cannot be
/// over before `reset_elapsed_ns` plus the default.
///
/// [`Timeout::reset`] establishes the hypothesis: the deadline it leaves is
/// exactly the reading it was handed plus the default duration.
pub proof fn lemma_reset_extends_deadline<R: Runtime>(t: Timeout<R>, reset_elapsed_ns: u64, elapsed_ns: u64)
    requires
        t.deadline_ns() == reset_elapsed_ns + t.default_ns(),
        elapsed_ns < reset_elapsed_ns + t.default_ns(),
    ensures
        !t.is_expired_at(elapsed_ns),
        t.remaining_ns_at(elapsed_ns) is Some,
{
}

/// Law: changing the default timeout alone changes nothing a wait can
/// observe. Two timeouts with the same deadline expire at exactly the same
/// clock readings, with exactly the same remaining times, whatever their
/// default durations.
///
/// [`Timeout::set_default_timeout`] establishes the hypothesis: it leaves
/// the deadline where it was. Only a later reset, which re-arms from the
/// default then current, makes a new default felt.
pub proof fn lemma_default_change_is_latent<R: Runtime>(t1: Timeout<R>, t2: Timeout<R>)
    requires
        t1.deadline_ns() == t2.deadline_ns(),
    ensures
        forall|elapsed_ns: u64| t1.is_expired_at(elapsed_ns) == t2.is_expired_at(elapsed_ns),
        forall|elapsed_ns: u64|
            t1.remaining_ns_at(elapsed_ns) == t2.remaining_ns_at(elapsed_ns),
{
}

/// Law: once the deadline has passed, the wait decision is `None` at once —
/// a wait that starts after expiry returns immediately, without creating or
/// re-arming any sleep.
pub proof fn lemma_expired_wait_returns_immediately<R: Runtime>(t: Timeout<R>, elapsed_ns: u64)
    requires
        t.is_expired_at(elapsed_ns),
    ensures
        t.remaining_ns_at(elapsed_ns) is None,
{
}

/// Law: however many resets race, the deadline any wait observes is the one
/// write that landed last, and the wait is not over before the earliest
/// deadline any of the racing resets established.
///
/// `reset_elapsed_ns` collects the clock readings the racing resets were
/// handed; last-write-wins on the deadline means some one of them produced
/// the standing deadline, and that is all this law assumes. Which write
/// lands last the memory order alone decides, so only the earliest of the
/// candidate deadlines is a bound on every outcome.
pub proof fn lemma_reset_race_lower_bound<R: Runtime>(t: Timeout<R>, reset_elapsed_ns: Seq<u64>, elapsed_ns: u64)
    requires
        exists|i: int|
            0 <= i < reset_elapsed_ns.len()
                && t.deadline_ns() == #[trigger] reset_elapsed_ns[i] + t.default_ns(),
        forall|i: int|
            0 <= i < reset_elapsed_ns.len()
                ==> elapsed_ns < #[trigger] reset_elapsed_ns[i] + t.default_ns(),
    ensures
        !t.is_expired_at(elapsed_ns),
        t.remaining_ns_at(elapsed_ns) is Some,
{
}

/// Where a reset moves the deadline: the current clock reading plus the
/// default duration, both in nanoseconds from the same epoch.
///
/// A deadline past `u64::MAX` nanoseconds from the epoch (about 584 years)
/// is a programming error, so callers must rule the overflow out first.
pub fn next_deadline_ns(elapsed_ns: u64, default_timeout_ns: u64) -> (d: u64)
    requires
        elapsed_ns + default_timeout_ns <= u64::MAX,
    ensures
        d == elapsed_ns + default_timeout_ns,
{
    elapsed_ns + default_timeout_ns
}

} // verus!

