use std::cell::Cell;
use std::rc::Rc;

use async_shared_timeout::runtime::{Instant, Runtime, Sleep};
use async_shared_timeout::wrapper::{resets_timeout, Event, Wrapper};
use async_shared_timeout::Timeout;

/// A simulated monotonic clock: a shared nanosecond counter that the test
/// moves forward by hand.
struct SimRuntime {
    clock: Rc<Cell<u64>>,
}

struct SimInstant {
    ns: u64,
}

struct SimSleep;

impl Instant for SimInstant {
    fn duration_since(&self, earlier: &Self) -> u64 {
        self.ns.saturating_sub(earlier.ns)
    }
}

impl Sleep for SimSleep {
    fn reset(&mut self, _timeout_ns: u64) {}
    fn block(&mut self) {}
}

impl Runtime for SimRuntime {
    type Sleep = SimSleep;
    type Instant = SimInstant;
    fn create_sleep(&self, _timeout_ns: u64) -> SimSleep {
        SimSleep
    }
    fn now(&self) -> SimInstant {
        SimInstant {
            ns: self.clock.get(),
        }
    }
}

fn sim_timeout(default_timeout_ns: u64) -> Timeout<SimRuntime> {
    let clock = Rc::new(Cell::new(0u64));
    Timeout::new(SimRuntime { clock }, default_timeout_ns)
}

#[test]
fn moving_bytes_counts_as_progress() {
    assert!(resets_timeout(&Event::Read { bytes: 1 }));
    assert!(resets_timeout(&Event::Write { bytes: 3 }));
    assert!(resets_timeout(&Event::BufFill { bytes: 9 }));
}

#[test]
fn zero_length_transfers_are_not_progress() {
    assert!(!resets_timeout(&Event::Read { bytes: 0 }));
    assert!(!resets_timeout(&Event::Write { bytes: 0 }));
    assert!(!resets_timeout(&Event::BufFill { bytes: 0 }));
}

#[test]
fn seeks_stream_items_and_futures_are_progress() {
    assert!(resets_timeout(&Event::SeekDone));
    assert!(resets_timeout(&Event::StreamItem));
    assert!(resets_timeout(&Event::FutureCompleted));
}

#[test]
fn flush_shutdown_and_stream_end_are_not_progress() {
    assert!(!resets_timeout(&Event::Flush));
    assert!(!resets_timeout(&Event::Shutdown));
    assert!(!resets_timeout(&Event::StreamEnd));
}

#[test]
fn progress_resets_the_shared_timeout() {
    let mut wrapper = Wrapper::new(5u32, sim_timeout(10));
    wrapper.note_progress(Event::Read { bytes: 5 }, 4);
    // The deadline moved to 4 + 10 = 14.
    assert_eq!(wrapper.timeout().timeout_duration(13), Some(1));
    assert_eq!(wrapper.timeout().timeout_duration(14), None);
}

#[test]
fn non_progress_leaves_the_timeout_untouched() {
    let mut wrapper = Wrapper::new(5u32, sim_timeout(10));
    wrapper.note_progress(Event::Read { bytes: 0 }, 4);
    wrapper.note_progress(Event::Flush, 6);
    wrapper.note_progress(Event::Shutdown, 8);
    // The deadline still stands at the initial 10.
    assert_eq!(wrapper.timeout().timeout_duration(9), Some(1));
    assert_eq!(wrapper.timeout().timeout_duration(10), None);
}

#[test]
fn stream_items_reset_but_stream_end_does_not() {
    let mut wrapper = Wrapper::new((), sim_timeout(10));
    wrapper.note_progress(Event::StreamItem, 20);
    // The item moved the deadline to 20 + 10 = 30...
    assert_eq!(wrapper.timeout().timeout_duration(29), Some(1));
    assert_eq!(wrapper.timeout().timeout_duration(30), None);
    // ...and the end of the stream leaves it standing there.
    wrapper.note_progress(Event::StreamEnd, 25);
    assert_eq!(wrapper.timeout().timeout_duration(29), Some(1));
    assert_eq!(wrapper.timeout().timeout_duration(30), None);
}

#[test]
fn repeated_progress_keeps_extending() {
    let mut wrapper = Wrapper::new((), sim_timeout(10));
    wrapper.note_progress(Event::Write { bytes: 1 }, 5);
    wrapper.note_progress(Event::Write { bytes: 1 }, 12);
    // Only the latest reset counts: the deadline is 12 + 10 = 22.
    assert_eq!(wrapper.timeout().timeout_duration(21), Some(1));
    assert_eq!(wrapper.timeout().timeout_duration(22), None);
}

#[test]
fn wrapper_exposes_the_inner_object() {
    let mut wrapper = Wrapper::new(5u32, sim_timeout(10));
    assert_eq!(*wrapper.inner(), 5);
    *wrapper.inner_mut() = 7;
    assert_eq!(*wrapper.inner(), 7);
    // Touching the inner object does not touch the timeout.
    assert_eq!(wrapper.timeout().timeout_duration(10), None);
}
