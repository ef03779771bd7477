//! A wrapper that resets a timeout whenever the object it wraps makes
//! progress.
//!
//! The decorators around real read, write, seek, stream and future
//! operations must live with the host runtime (they forward polls), but the
//! one decision they take — does this outcome count as activity that keeps
//! the session alive? — is a rule on plain values, and that rule lives
//! here. [`Event`] describes the outcome of a completed operation,
//! [`event_resets_timeout`] is the policy, and [`Wrapper::note_progress`]
//! applies it to the timeout.
//!
//! The policy, in words: a read, a buffered fill or a write counts only if
//! it moved at least one byte; a completed seek, a produced stream item and
//! a future's completion always count; a stream's end, a flush and a
//! shutdown never do, and failed operations are never reported. So
//! zero-length transfers and end-of-file or end-of-stream results do not
//! keep a session alive, and each successful progress event resets the
//! timeout exactly once.

use vstd::prelude::*;

use crate::Timeout;
use crate::runtime::Runtime;

verus! {

/// The outcome of a completed operation on a wrapped object.
#[derive(Clone, Copy, Debug)]
pub enum Event {
    /// A read completed, moving `bytes` bytes.
    Read { bytes: usize },
    /// A write completed, moving `bytes` bytes.
    Write { bytes: usize },
    /// A buffered read filled its buffer with `bytes` bytes.
    BufFill { bytes: usize },
    /// A seek completed.
    SeekDone,
    /// A flush completed.
    Flush,
    /// A shutdown or close completed.
    Shutdown,
    /// A stream produced an item.
    StreamItem,
    /// A stream reported its end: no more items will come.
    StreamEnd,
    /// A wrapped future completed.
    FutureCompleted,
}

/// The activity policy: whether an event counts as progress that resets
/// the shared timeout.
pub open spec fn event_resets_timeout(event: Event) -> bool {
    match event {
        Event::Read { bytes } => bytes > 0,
        Event::Write { bytes } => bytes > 0,
        Event::BufFill { bytes } => bytes > 0,
        Event::SeekDone => true,
        Event::Flush => false,
        Event::Shutdown => false,
        Event::StreamItem => true,
        Event::StreamEnd => false,
        Event::FutureCompleted => true,
    }
}

/// Decide whether an event counts as progress, for a decorator about to
/// report it.
pub fn resets_timeout(event: &Event) -> (r: bool)
    ensures
        r == event_resets_timeout(*event),
{
    match event {
        Event::Read { bytes } => *bytes > 0,
        Event::Write { bytes } => *bytes > 0,
        Event::BufFill { bytes } => *bytes > 0,
        Event::SeekDone => true,
        Event::Flush => false,
        Event::Shutdown => false,
        Event::StreamItem => true,
        Event::StreamEnd => false,
        Event::FutureCompleted => true,
    }
}

/// A wrapped object together with the timeout its activity keeps alive.
pub struct Wrapper<R: Runtime, T> {
    inner: T,
    timeout: Timeout<R>,
}

impl<R: Runtime, T> Wrapper<R, T> {
    /// The wrapped object.
    pub closed spec fn inner_spec(&self) -> T {
        self.inner
    }

    /// The timeout the wrapper's activity keeps alive.
    pub closed spec fn timeout_spec(&self) -> Timeout<R> {
        self.timeout
    }

    /// Wrap an object so that its progress events keep `timeout` alive.
    pub fn new(inner: T, timeout: Timeout<R>) -> (w: Self)
        ensures
            w.inner_spec() == inner,
            w.timeout_spec() == timeout,
    {
        Wrapper { inner, timeout }
    }

    /// The timeout.
    pub fn timeout(&self) -> (t: &Timeout<R>)
        ensures
            *t == self.timeout_spec(),
    {
        &self.timeout
    }

    /// A reference to the underlying object.
    pub fn inner(&self) -> (r: &T)
        ensures
            *r == self.inner_spec(),
    {
        &self.inner
    }

    /// A mutable reference to the underlying object.
    pub fn inner_mut(&mut self) -> (r: &mut T)
        ensures
            *r == old(self).inner_spec(),
            final(self).inner_spec() == *final(r),
            final(self).timeout_spec() == old(self).timeout_spec(),
    {
        &mut self.inner
    }

    /// Report the outcome of a completed operation, observed at the clock
    /// reading `elapsed_ns`.
    ///
    /// If the event counts as progress under [`event_resets_timeout`], the
    /// timeout is reset — its deadline moves to `elapsed_ns` plus its
    /// default duration — and otherwise the timeout is left exactly as it
    /// was.
    pub fn note_progress(&mut self, event: Event, elapsed_ns: u64)
        requires
            event_resets_timeout(event)
                ==> elapsed_ns + old(self).timeout_spec().default_ns() <= u64::MAX,
        ensures
            final(self).inner_spec() == old(self).inner_spec(),
            final(self).timeout_spec().default_ns() == old(self).timeout_spec().default_ns(),
            final(self).timeout_spec().epoch_spec() == old(self).timeout_spec().epoch_spec(),
            final(self).timeout_spec().runtime_spec() == old(self).timeout_spec().runtime_spec(),
            event_resets_timeout(event) ==> final(self).timeout_spec().deadline_ns()
                == elapsed_ns + old(self).timeout_spec().default_ns(),
            !event_resets_timeout(event)
                ==> final(self).timeout_spec() == old(self).timeout_spec(),
    {
        if resets_timeout(&event) {
            self.timeout.reset(elapsed_ns);
        }
    }
}

} // verus!
