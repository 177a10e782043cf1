//! The trusted boundary to the kernel signal facilities.
//!
//! Everything the library asks of the operating system goes through the
//! wrappers in this module: building a kernel signal-set value, mutating the
//! calling thread's signal mask, and creating, re-masking and reading the
//! signal notification descriptor.  Each wrapper makes exactly one outside
//! call; its contract states only what the called crate's source shows.
//! Failures are reported as the raw operating-system error code.
//!
//! The thread mask and the descriptor's queue are ambient kernel state, so
//! no wrapper promises anything about them beyond its own call; what the
//! library guarantees is stated on the verified functions that use these
//! wrappers, for every outcome the wrappers may produce.

use vstd::prelude::*;

use nix::sys::signal::SigSet;
use nix::sys::signal::Signal;
use nix::sys::signalfd::SfdFlags;
use nix::sys::signalfd::SignalFd;

use crate::event::SignalInfo;
use crate::sigset::valid_signal;

verus! {

#[verifier::external_type_specification]
#[verifier::external_body]
pub struct ExSigSet(SigSet);

#[verifier::external_type_specification]
#[verifier::external_body]
pub struct ExSignalFd(SignalFd);

/// The set of signal numbers a kernel signal-set value holds.
pub uninterp spec fn sig_set_view(s: SigSet) -> Set<i32>;

/// Relies on nix's `SigSet::empty`: a fresh kernel signal set with no
/// members.
#[verifier::external_body]
pub(crate) fn sigset_empty() -> (s: SigSet)
    ensures
        sig_set_view(s) == Set::<i32>::empty(),
{
    SigSet::empty()
}

/// Relies on nix's `SigSet::add`, which inserts exactly the given signal,
/// and on `Signal::try_from`, which on Linux accepts every number in the
/// standard range 1 through 31.
#[verifier::external_body]
pub(crate) fn sigset_add(s: &mut SigSet, sig: i32)
    requires
        valid_signal(sig),
    ensures
        sig_set_view(*final(s)) == sig_set_view(*old(s)).insert(sig),
{
    s.add(Signal::try_from(sig).unwrap())
}

/// Relies on nix's `SigSet::thread_block` (`pthread_sigmask` with
/// `SIG_BLOCK`): on success the set's members have been added to the calling
/// thread's signal mask; on failure the raw error code is returned.
#[verifier::external_body]
pub(crate) fn thread_block_set(s: &SigSet) -> (r: Result<(), i32>) {
    match s.thread_block() {
        Ok(()) => Ok(()),
        Err(e) => Err(e as i32),
    }
}

/// Relies on nix's `SigSet::thread_unblock` (`pthread_sigmask` with
/// `SIG_UNBLOCK`): on success the set's members have been removed from the
/// calling thread's signal mask; on failure the raw error code is returned.
#[verifier::external_body]
pub(crate) fn thread_unblock_set(s: &SigSet) -> (r: Result<(), i32>) {
    match s.thread_unblock() {
        Ok(()) => Ok(()),
        Err(e) => Err(e as i32),
    }
}

/// Relies on nix's `SignalFd::with_flags`: opens a signal notification
/// descriptor scoped to the given set, non-blocking and close-on-exec.
#[verifier::external_body]
pub(crate) fn create_signal_fd(mask: &SigSet) -> (r: Result<SignalFd, i32>) {
    match SignalFd::with_flags(mask, SfdFlags::SFD_NONBLOCK | SfdFlags::SFD_CLOEXEC) {
        Ok(fd) => Ok(fd),
        Err(e) => Err(e as i32),
    }
}

/// Relies on nix's `SignalFd::set_mask`: commits the given set as the
/// descriptor's kernel-side mask.
#[verifier::external_body]
pub(crate) fn set_fd_mask(fd: &SignalFd, mask: &SigSet) -> (r: Result<(), i32>) {
    match fd.set_mask(mask) {
        Ok(()) => Ok(()),
        Err(e) => Err(e as i32),
    }
}

/// Relies on nix's `SignalFd::read_signal`, a non-blocking read: `Ok(Some)`
/// carries the next queued record's metadata, `Ok(None)` means nothing is
/// queued, and an error is any other read failure.
#[verifier::external_body]
pub(crate) fn read_fd_signal(fd: &SignalFd) -> (r: Result<Option<SignalInfo>, i32>) {
    match fd.read_signal() {
        Ok(Some(si)) => Ok(Some(SignalInfo {
            signo: si.ssi_signo as i32,
            errno: si.ssi_errno,
            code: si.ssi_code,
            pid: si.ssi_pid,
            uid: si.ssi_uid,
            status: si.ssi_status,
            int_value: si.ssi_int,
            ptr_value: si.ssi_ptr,
            utime: si.ssi_utime, stime: si.ssi_stime,
        })),
        Ok(None) => Ok(None),
        Err(e) => Err(e as i32),
    }
}

} // verus!
