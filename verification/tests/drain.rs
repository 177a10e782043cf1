//! Drain behaviour: queued records come out as events, in order, exactly
//! once, and a drained source reports "none pending".

use nix::sys::signal::{raise, Signal};

use signal_source::signals::Signals;
use signal_source::sigset::SignalSet;

fn set_of(signals: &[Signal]) -> SignalSet {
    let mut s = SignalSet::empty();
    for &sig in signals {
        s.insert(sig as i32).unwrap();
    }
    s
}

#[test]
fn drain_with_nothing_pending_yields_no_events() {
    let mut source = Signals::new(set_of(&[Signal::SIGWINCH])).unwrap();
    let outcome = source.drain();
    assert_eq!(outcome.events.len(), 0);
    assert!(outcome.error.is_none());
    assert!(source.dispose().is_none());
}

#[test]
fn one_raise_becomes_exactly_one_event() {
    let mut source = Signals::new(set_of(&[Signal::SIGWINCH])).unwrap();
    raise(Signal::SIGWINCH).unwrap();

    let outcome = source.drain();
    assert!(outcome.error.is_none());
    assert_eq!(outcome.events.len(), 1);
    assert_eq!(outcome.events[0].signal(), Signal::SIGWINCH as i32);
    assert_eq!(outcome.events[0].full_info().signo, Signal::SIGWINCH as i32);

    // Everything queued has been drained: the next pass finds nothing.
    let again = source.drain();
    assert_eq!(again.events.len(), 0);
    assert!(again.error.is_none());

    assert!(source.dispose().is_none());
}

#[test]
fn try_read_one_reports_none_pending_after_the_queue_empties() {
    let mut source = Signals::new(set_of(&[Signal::SIGURG])).unwrap();
    assert!(source.try_read_one().unwrap().is_none());

    raise(Signal::SIGURG).unwrap();
    let first = source.try_read_one().unwrap().unwrap();
    assert_eq!(first.signal(), Signal::SIGURG as i32);
    assert!(source.try_read_one().unwrap().is_none());

    assert!(source.dispose().is_none());
}

#[test]
fn two_queued_signals_drain_as_two_events_in_order() {
    let mut source = Signals::new(set_of(&[Signal::SIGUSR1, Signal::SIGUSR2])).unwrap();
    raise(Signal::SIGUSR1).unwrap();
    raise(Signal::SIGUSR2).unwrap();

    let outcome = source.drain();
    assert!(outcome.error.is_none());
    assert_eq!(outcome.events.len(), 2);
    assert_eq!(outcome.events[0].signal(), Signal::SIGUSR1 as i32);
    assert_eq!(outcome.events[1].signal(), Signal::SIGUSR2 as i32);

    let again = source.drain();
    assert_eq!(again.events.len(), 0);
    assert!(again.error.is_none());

    assert!(source.dispose().is_none());
}

#[test]
fn removed_signal_is_no_longer_captured_while_kept_signal_still_is() {
    let mut source = Signals::new(set_of(&[Signal::SIGURG, Signal::SIGCHLD])).unwrap();
    source.remove_signals(&set_of(&[Signal::SIGCHLD])).unwrap();

    // SIGCHLD is unblocked again: raising it falls back to its default
    // disposition (ignored) instead of being queued on the descriptor.
    raise(Signal::SIGCHLD).unwrap();
    // SIGURG is still tracked and blocked: raising it queues a record.
    raise(Signal::SIGURG).unwrap();

    let outcome = source.drain();
    assert!(outcome.error.is_none());
    assert_eq!(outcome.events.len(), 1);
    assert_eq!(outcome.events[0].signal(), Signal::SIGURG as i32);

    assert!(source.dispose().is_none());
}
