//! The signal event source: mask lifecycle and drain pass.
//!
//! A [`Signals`] value owns one kernel signal notification descriptor and
//! the slice of the calling thread's signal mask installed on its behalf.
//! The tracked set [`Signals::mask`] is the source of truth for that slice:
//! every mutation blocks or unblocks exactly the delta against it and then
//! commits the full updated set to the descriptor, so the descriptor's
//! kernel-side mask never silently diverges from the tracked set.
//!
//! On partial failure (the thread-mask call succeeded but the descriptor
//! commit did not, or the reverse) the two pieces of kernel state may be
//! left inconsistent; this is reported to the caller and documented here
//! rather than rolled back, because the mask calls themselves can fail.
//! The ghost field [`Signals::blocked`] models the mask slice this instance
//! believes it has installed: it is updated exactly when the corresponding
//! thread-mask call reports success, so under partial failure it records
//! which step took effect.
//!
//! All operations run synchronously on the owning thread; the library never
//! blocks (reads are non-blocking by construction) and spawns nothing.
//! Threads spawned after construction inherit the current mask; keeping
//! them consistently masked is the caller's responsibility.

use vstd::prelude::*;

use crate::errors::{no_nix_err, OsResourceError};
use crate::event::Event;
use crate::os::{
    create_signal_fd, read_fd_signal, set_fd_mask, sig_set_view, sigset_add, sigset_empty,
    thread_block_set, thread_unblock_set,
};
use crate::sigset::SignalSet;

use nix::sys::signal::SigSet;
use nix::sys::signalfd::SignalFd;

verus! {

/// The readiness interest the source advertises to an external poller:
/// always readable, nothing else.
#[derive(Copy, Clone, Debug, PartialEq, Eq, Structural)]
pub enum Interest {
    /// The descriptor should be watched for readability.
    Readable,
}

/// The trigger mode the source advertises to an external poller: always
/// edge-triggered, which the full-drain discipline of [`Signals::drain`]
/// requires.
#[derive(Copy, Clone, Debug, PartialEq, Eq, Structural)]
pub enum TriggerMode {
    /// Readiness is reported on transitions only; the consumer must drain
    /// fully on every notification.
    Edge,
}

/// The result of one drain pass over the notification descriptor.
pub struct DrainOutcome {
    /// The events read, in arrival order.
    pub events: Vec<Event>,
    /// The error that cut the pass short, if any; undrained records are
    /// picked up on the next readiness notification.
    pub error: Option<OsResourceError>,
    /// The read results the pass observed, one per attempt, in order.
    pub reads: Ghost<Seq<Result<Option<Event>, OsResourceError>>>,
}

impl DrainOutcome {
    /// What a drain pass guarantees: every delivered event is one
    /// successfully read record, in read order, nothing fabricated; and the
    /// pass ended exactly on a "none pending" read, on a failed read, or --
    /// never reached in practice -- on the pass's read budget of
    /// `usize::MAX` attempts.
    pub open spec fn describes_pass(self) -> bool {
        let reads = self.reads@;
        let evs = self.events@;
        &&& evs.len() <= reads.len() <= evs.len() + 1
        &&& (forall|i: int|
            0 <= i < evs.len() ==> reads[i] == Ok::<Option<Event>, OsResourceError>(
                Some(evs[i]),
            ))
        &&& (reads.len() == evs.len() + 1 ==> (match self.error {
            None => reads.last() == Ok::<Option<Event>, OsResourceError>(None),
            Some(e) => reads.last() == Err::<Option<Event>, OsResourceError>(e),
        }))
        &&& (reads.len() == evs.len() ==> evs.len() == usize::MAX && self.error is None)
    }
}

/// An event source for receiving Unix signals: one kernel notification
/// descriptor plus the tracked set of signals blocked on its behalf.
pub struct Signals {
    /// The kernel signal notification descriptor.  Its kernel-side mask is
    /// kept equal to the last successfully committed tracked set.
    pub sfd: SignalFd,
    /// The tracked set: exactly the signals this instance currently intends
    /// to have blocked.
    pub mask: SignalSet,
    /// Whether the instance has been disposed.  Disposal is terminal: the
    /// tracked set is emptied, so a second disposal unblocks nothing.
    pub disposed: bool,
    /// The model of the thread-mask slice this instance believes it has
    /// installed: updated exactly when a thread-mask call reports success.
    /// Under the documented partial-failure hazard the kernel's actual mask
    /// may diverge from it.
    pub blocked: Ghost<Set<i32>>,
}

impl Signals {
    /// The internal invariant: the tracked set is well formed, and a
    /// disposed instance tracks nothing.
    pub open spec fn wf(&self) -> bool {
        &&& self.mask.wf()
        &&& (self.disposed ==> self.mask@ == Set::<i32>::empty())
    }

    /// Creates a new signal event source listening on the given set.
    ///
    /// Blocks the set on the calling thread, then opens the notification
    /// descriptor scoped to exactly that set, non-blocking and
    /// close-on-exec.  On failure the thread's mask may already have been
    /// altered; this is not rolled back, because unblocking can itself
    /// fail.
    pub fn new(signals: SignalSet) -> (r: Result<Signals, OsResourceError>)
        requires
            signals.wf(),
        ensures
            r matches Ok(s) ==> s.wf() && !s.disposed && s.mask@ == signals@ && s.blocked@
                == signals@,
    {
        let ghost wanted = signals@;
        let kernel_set = build_sigset(&signals);
        match thread_block_set(&kernel_set) {
            Ok(()) => {}
            Err(e) => {
                return Err(no_nix_err(e));
            }
        }
        let sfd = match create_signal_fd(&kernel_set) {
            Ok(fd) => fd,
            Err(e) => {
                return Err(no_nix_err(e));
            }
        };
        Ok(Signals { sfd, mask: signals, disposed: false, blocked: Ghost(wanted) })
    }

    /// Adds the given signals to the source.
    ///
    /// Unions them into the tracked set, blocks the updated set on the
    /// thread, then commits it to the descriptor.  The tracked set is
    /// updated even on failure; if this function returns an error, the
    /// signal mask of the thread may still have been changed.
    pub fn add_signals(&mut self, signals: &SignalSet) -> (r: Result<(), OsResourceError>)
        requires
            old(self).wf(),
            signals.wf(),
            !old(self).disposed,
        ensures
            final(self).wf(),
            !final(self).disposed,
            final(self).mask@ == old(self).mask@.union(signals@),
            r is Ok ==> final(self).blocked@ == old(self).blocked@.union(final(self).mask@),
            final(self).blocked@ == old(self).blocked@ || final(self).blocked@ == old(
                self,
            ).blocked@.union(final(self).mask@),
    {
        self.mask.union_with(signals);
        let kernel_set = build_sigset(&self.mask);
        match thread_block_set(&kernel_set) {
            Ok(()) => {
                self.blocked = Ghost(self.blocked@.union(self.mask@));
            }
            Err(e) => {
                return Err(no_nix_err(e));
            }
        }
        match set_fd_mask(&self.sfd, &kernel_set) {
            Ok(()) => Ok(()),
            Err(e) => Err(no_nix_err(e)),
        }
    }

    /// Removes the given signals from the source.
    ///
    /// Removes them from the tracked set, unblocks exactly the removed
    /// signals on the thread -- never a signal that remains tracked after
    /// the removal -- then commits the updated set to the descriptor.  The
    /// tracked set is updated even on failure; if this function returns an
    /// error, the signal mask of the thread may still have been changed.
    pub fn remove_signals(&mut self, signals: &SignalSet) -> (r: Result<(), OsResourceError>)
        requires
            old(self).wf(),
            signals.wf(),
            !old(self).disposed,
        ensures
            final(self).wf(),
            !final(self).disposed,
            final(self).mask@ == old(self).mask@.difference(signals@),
            final(self).mask@.disjoint(signals@),
            r is Ok ==> final(self).blocked@ == old(self).blocked@.difference(signals@),
            final(self).blocked@ == old(self).blocked@ || final(self).blocked@ == old(
                self,
            ).blocked@.difference(signals@),
    {
        self.mask.subtract(signals);
        let removed = build_sigset(signals);
        match thread_unblock_set(&removed) {
            Ok(()) => {
                self.blocked = Ghost(self.blocked@.difference(signals@));
            }
            Err(e) => {
                return Err(no_nix_err(e));
            }
        }
        let kernel_set = build_sigset(&self.mask);
        match set_fd_mask(&self.sfd, &kernel_set) {
            Ok(()) => Ok(()),
            Err(e) => Err(no_nix_err(e)),
        }
    }

    /// Replaces the tracked set of the source with the given one.
    ///
    /// Unblocks the entire previous set, blocks the entire new set, commits
    /// the new set to the descriptor, and only then updates the tracked
    /// set, so that on failure the tracked value still reflects the last
    /// state the descriptor was synchronized to.  If this function returns
    /// an error, the signal mask of the thread may still have been changed.
    pub fn set_signals(&mut self, signals: SignalSet) -> (r: Result<(), OsResourceError>)
        requires
            old(self).wf(),
            signals.wf(),
            !old(self).disposed,
        ensures
            final(self).wf(),
            !final(self).disposed,
            r is Ok ==> final(self).mask@ == signals@ && final(self).blocked@ == old(
                self,
            ).blocked@.difference(old(self).mask@).union(signals@),
            r is Err ==> final(self).mask@ == old(self).mask@,
            final(self).blocked@ == old(self).blocked@ || final(self).blocked@ == old(
                self,
            ).blocked@.difference(old(self).mask@) || final(self).blocked@ == old(
                self,
            ).blocked@.difference(old(self).mask@).union(signals@),
    {
        let previous = build_sigset(&self.mask);
        let replacement = build_sigset(&signals);
        match thread_unblock_set(&previous) {
            Ok(()) => {
                self.blocked = Ghost(self.blocked@.difference(self.mask@));
            }
            Err(e) => {
                return Err(no_nix_err(e));
            }
        }
        match thread_block_set(&replacement) {
            Ok(()) => {
                self.blocked = Ghost(self.blocked@.union(signals@));
            }
            Err(e) => {
                return Err(no_nix_err(e));
            }
        }
        match set_fd_mask(&self.sfd, &replacement) {
            Ok(()) => {}
            Err(e) => {
                return Err(no_nix_err(e));
            }
        }
        self.mask = signals;
        Ok(())
    }

    /// Disposes of the source: unblocks, on the thread, every signal
    /// currently tracked, restoring the mask slice this instance owns, and
    /// empties the tracked set.  Disposal is terminal and safe to repeat: a
    /// second call tracks nothing, so it unblocks nothing.
    ///
    /// A failure to unblock is returned as a diagnostic, not propagated as
    /// a failure: there is no recovery action at teardown time, but the
    /// caller's operators should be able to detect mask leakage.  The
    /// descriptor itself is released when the value is dropped.
    pub fn dispose(&mut self) -> (r: Option<OsResourceError>)
        requires
            old(self).wf(),
        ensures
            final(self).wf(),
            final(self).disposed,
            final(self).mask@ == Set::<i32>::empty(),
            old(self).disposed ==> r is None && *final(self) == *old(self),
            !old(self).disposed && r is None ==> final(self).blocked@ == old(
                self,
            ).blocked@.difference(old(self).mask@) && final(self).blocked@.disjoint(
                old(self).mask@,
            ),
            r is Some ==> final(self).blocked@ == old(self).blocked@,
    {
        if self.disposed {
            return None;
        }
        let ghost owned_before = self.mask@;
        let owned = build_sigset(&self.mask);
        let unblocked = thread_unblock_set(&owned);
        self.mask = SignalSet::empty();
        self.disposed = true;
        match unblocked {
            Ok(()) => {
                self.blocked = Ghost(self.blocked@.difference(owned_before));
                None
            }
            Err(e) => Some(no_nix_err(e)),
        }
    }

    /// Non-blocking attempt to pull one decoded record from the descriptor.
    ///
    /// Returns a record if one was pending; `Ok(None)` if nothing is queued
    /// (the normal drain-termination condition, not an error); or the
    /// operating-system error for any other read failure.  What came back
    /// is decided by the kernel's queue; what the library guarantees of a
    /// whole pass over it is stated on [`Signals::drain`], for every
    /// sequence of outcomes this function may produce.
    pub fn try_read_one(&self) -> (r: Result<Option<Event>, OsResourceError>) {
        match read_fd_signal(&self.sfd) {
            Ok(Some(info)) => Ok(Some(Event { info })),
            Ok(None) => Ok(None),
            Err(e) => Err(no_nix_err(e)),
        }
    }

    /// One full drain pass: repeatedly reads one record until the
    /// descriptor reports "none pending" or a read fails.
    ///
    /// The outcome's contract pins the delivered events to the observed
    /// reads: each event is one successfully read record, in arrival order,
    /// none fabricated and none dropped; the pass stops exactly at the
    /// first non-record read.  If a read fails mid-pass the error is
    /// reported and the remaining records are left for the next readiness
    /// notification.
    pub fn drain(&self) -> (r: DrainOutcome)
        ensures
            r.describes_pass(),
    {
        let mut events: Vec<Event> = Vec::new();
        let ghost mut reads: Seq<Result<Option<Event>, OsResourceError>> = Seq::empty();
        let mut error: Option<OsResourceError> = None;
        let mut finished = false;
        while !finished && events.len() < usize::MAX
            invariant
                reads.len() == events@.len() + (if finished {
                    1int
                } else {
                    0int
                }),
                forall|i: int|
                    0 <= i < events@.len() ==> reads[i] == Ok::<Option<Event>, OsResourceError>(
                        Some(events@[i]),
                    ),
                finished ==> (match error {
                    None => reads.last() == Ok::<Option<Event>, OsResourceError>(None),
                    Some(e) => reads.last() == Err::<Option<Event>, OsResourceError>(e),
                }),
                !finished ==> error is None,
            decreases usize::MAX - events.len() + (if finished {
                0int
            } else {
                1int
            }),
        {
            let step = self.try_read_one();
            proof {
                reads = reads.push(step);
            }
            match step {
                Ok(Some(ev)) => {
                    events.push(ev);
                }
                Ok(None) => {
                    finished = true;
                }
                Err(e) => {
                    error = Some(e);
                    finished = true;
                }
            }
        }
        DrainOutcome { events, error, reads: Ghost(reads) }
    }

    /// Decides the internal invariant at run time, for callers outside the
    /// verified world that must establish it before relying on it.
    pub fn well_formed(&self) -> (r: bool)
        ensures
            r == self.wf(),
    {
        if !self.mask.well_formed() {
            return false;
        }
        if self.disposed && self.mask.sigs.len() > 0 {
            proof {
                assert(self.mask@.contains(self.mask.sigs@[0]));
            }
            return false;
        }
        proof {
            if self.mask.sigs.len() == 0 {
                assert(self.mask@ =~= Set::<i32>::empty());
            }
        }
        true
    }

    /// The readiness interest this source advertises: readable only.
    pub fn interest(&self) -> (r: Interest)
        ensures
            r == Interest::Readable,
    {
        Interest::Readable
    }

    /// The trigger mode this source advertises: edge-triggered, because
    /// every readiness notification is answered with a full drain.
    pub fn pollopts(&self) -> (r: TriggerMode)
        ensures
            r == TriggerMode::Edge,
    {
        TriggerMode::Edge
    }

    /// The underlying notification descriptor, by reference, for an
    /// external poller's registration lifecycle.  Ownership stays with this
    /// instance, which remains responsible for disposal however many times
    /// the descriptor is registered.
    pub fn notification_handle(&self) -> (r: &SignalFd)
        ensures
            *r == self.sfd,
    {
        &self.sfd
    }
}

/// Builds the kernel signal-set value holding exactly the members of the
/// given tracked set.
fn build_sigset(set: &SignalSet) -> (s: SigSet)
    requires
        set.wf(),
    ensures
        sig_set_view(s) == set@,
{
    let mut s = sigset_empty();
    let mut i: usize = 0;
    while i < set.sigs.len()
        invariant
            i <= set.sigs.len(),
            set.wf(),
            sig_set_view(s) == set.sigs@.subrange(0, i as int).to_set(),
        decreases set.sigs.len() - i,
    {
        let ghost prefix = set.sigs@.subrange(0, i as int);
        sigset_add(&mut s, set.sigs[i]);
        proof {
            assert(prefix + seq![set.sigs@[i as int]] =~= set.sigs@.subrange(0, i as int + 1));
            Seq::<i32>::lemma_to_set_insert_commutes(prefix, set.sigs@[i as int]);
            assert(sig_set_view(s) =~= set.sigs@.subrange(0, i as int + 1).to_set());
        }
        i += 1;
    }
    proof {
        assert(set.sigs@.subrange(0, set.sigs@.len() as int) =~= set.sigs@);
    }
    s
}

/// Law: adding a set of signals and then removing that same set restores
/// the tracked set to its value before the addition, provided none of the
/// added signals was already tracked.
pub proof fn lemma_add_then_remove_restores(before: Set<i32>, added: Set<i32>)
    requires
        before.disjoint(added),
    ensures
        before.union(added).difference(added) == before,
{
    assert(before.union(added).difference(added) =~= before);
}

} // verus!
