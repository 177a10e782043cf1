//! Behaviour of the tracked signal-set type.

use signal_source::errors::ERR_INVALID_SIGNAL;
use signal_source::sigset::SignalSet;

#[test]
fn empty_set_has_no_members() {
    let s = SignalSet::empty();
    assert_eq!(s.len(), 0);
    assert!(!s.contains(1));
    assert!(!s.contains(31));
}

#[test]
fn insert_and_contains() {
    let mut s = SignalSet::empty();
    assert!(s.insert(10).is_ok());
    assert!(s.insert(15).is_ok());
    assert!(s.contains(10));
    assert!(s.contains(15));
    assert!(!s.contains(2));
    assert_eq!(s.len(), 2);
}

#[test]
fn insert_rejects_invalid_identifier() {
    let mut s = SignalSet::empty();
    let err = s.insert(0).unwrap_err();
    assert_eq!(err.code(), ERR_INVALID_SIGNAL);
    let err = s.insert(32).unwrap_err();
    assert_eq!(err.code(), ERR_INVALID_SIGNAL);
    let err = s.insert(-3).unwrap_err();
    assert_eq!(err.code(), ERR_INVALID_SIGNAL);
    assert_eq!(s.len(), 0);
}

#[test]
fn insert_collapses_duplicates() {
    let mut s = SignalSet::empty();
    assert!(s.insert(12).is_ok());
    assert!(s.insert(12).is_ok());
    assert_eq!(s.len(), 1);
}

#[test]
fn remove_only_affects_exactly_the_removed_member() {
    let mut s = SignalSet::empty();
    assert!(s.insert(2).is_ok());
    assert!(s.insert(15).is_ok());
    s.remove(2);
    assert!(!s.contains(2));
    assert!(s.contains(15));
    assert_eq!(s.len(), 1);
    s.remove(7);
    assert!(s.contains(15));
    assert_eq!(s.len(), 1);
}

#[test]
fn union_then_subtract_restores_the_set() {
    let mut s = SignalSet::empty();
    assert!(s.insert(2).is_ok());
    assert!(s.insert(15).is_ok());

    let mut delta = SignalSet::empty();
    assert!(delta.insert(10).is_ok());

    s.union_with(&delta);
    assert!(s.contains(2));
    assert!(s.contains(10));
    assert!(s.contains(15));
    assert_eq!(s.len(), 3);

    s.subtract(&delta);
    assert!(s.contains(2));
    assert!(s.contains(15));
    assert!(!s.contains(10));
    assert_eq!(s.len(), 2);
}

#[test]
fn from_list_collapses_duplicates() {
    let list: Vec<i32> = vec![17, 28, 17, 28, 23];
    let s = SignalSet::from_list(&list).unwrap();
    assert_eq!(s.len(), 3);
    assert!(s.contains(17));
    assert!(s.contains(23));
    assert!(s.contains(28));
}

#[test]
fn from_list_rejects_invalid_identifier() {
    let list: Vec<i32> = vec![17, 0];
    let err = SignalSet::from_list(&list).unwrap_err();
    assert_eq!(err.code(), ERR_INVALID_SIGNAL);
}
