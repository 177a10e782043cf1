//! Kernel queueing granularity: a standard signal that is raised again
//! while already pending is coalesced by the kernel's signal-queue
//! primitive into a single record, so one drain yields a single event.
//! The library neither fabricates a second event nor drops the first.

use nix::sys::signal::{raise, Signal};

use signal_source::signals::Signals;
use signal_source::sigset::SignalSet;

#[test]
fn pending_standard_signal_coalesces_into_one_record() {
    let mut s = SignalSet::empty();
    s.insert(Signal::SIGUSR1 as i32).unwrap();
    let mut source = Signals::new(s).unwrap();

    raise(Signal::SIGUSR1).unwrap();
    raise(Signal::SIGUSR1).unwrap();

    let outcome = source.drain();
    assert!(outcome.error.is_none());
    assert_eq!(outcome.events.len(), 1);
    assert_eq!(outcome.events[0].signal(), Signal::SIGUSR1 as i32);

    let again = source.drain();
    assert_eq!(again.events.len(), 0);
    assert!(again.error.is_none());

    assert!(source.dispose().is_none());
}
