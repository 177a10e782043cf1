//! Application-visible signal events.
//!
//! Each drained kernel record becomes one immutable [`Event`]: the signal
//! number plus the metadata block the kernel delivered for that occurrence
//! (sender process and user, originating mechanism, accompanying payload).
//! An event is created fresh per drained record and handed to exactly one
//! callback invocation; the library retains nothing after dispatch.

use vstd::prelude::*;

verus! {

/// The decoded metadata of one delivered signal, as plain values taken from
/// the kernel's per-record information block.
#[derive(Copy, Clone, Debug, PartialEq, Eq, Structural)]
pub struct SignalInfo {
    /// The signal number.
    pub signo: i32,
    /// The error code the kernel attached, if any.
    pub errno: i32,
    /// The signal origin code (user, kernel, queued, timer, ...).
    pub code: i32,
    /// The process id of the sender, where the origin has one.
    pub pid: u32,
    /// The real user id of the sender, where the origin has one.
    pub uid: u32,
    /// The exit status or signal, for child-status signals.
    pub status: i32,
    /// The integer payload accompanying a queued signal, if any.
    pub int_value: i32,
    /// The pointer payload accompanying a queued signal, if any.
    pub ptr_value: u64,
    /// User time consumed, for child-status signals.
    pub utime: u64,
    /// System time consumed, for child-status signals.
    pub stime: u64,
}

/// An event generated by the signal event source: one drained occurrence of
/// one signal.
#[derive(Copy, Clone, Debug, PartialEq, Eq, Structural)]
pub struct Event {
    /// The kernel-delivered record for this occurrence.
    pub info: SignalInfo,
}

impl Event {
    /// The signal number that was received.
    pub fn signal(&self) -> (r: i32)
        ensures
            r == self.info.signo,
    {
        self.info.signo
    }

    /// The full metadata block associated with this signal event.
    pub fn full_info(&self) -> (r: SignalInfo)
        ensures
            r == self.info,
    {
        self.info
    }
}

} // verus!
