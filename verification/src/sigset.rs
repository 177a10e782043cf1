//! The tracked set of signal numbers.
//!
//! A [`SignalSet`] is an unordered collection of signal identifiers with
//! membership-only semantics.  It is the source of truth for the signals an
//! instance of the library currently intends to have blocked: every mask
//! mutation is computed as a delta against it.  Signals are identified by
//! their Linux signal numbers; only the standard signals (numbers 1 through
//! 31) are representable, mirroring what the kernel notification object
//! accepts.

use vstd::prelude::*;

use crate::errors::{OsResourceError, ERR_INVALID_SIGNAL};

verus! {

/// The lowest standard Linux signal number.
pub const SIGNAL_MIN: i32 = 1;

/// The highest standard Linux signal number.
pub const SIGNAL_MAX: i32 = 31;

/// Whether `sig` is a standard Linux signal number.
pub open spec fn valid_signal(sig: i32) -> bool {
    SIGNAL_MIN <= sig <= SIGNAL_MAX
}

/// An unordered set of signal numbers: membership only, no multiplicity.
#[derive(Debug)]
pub struct SignalSet {
    /// The members, each a distinct standard signal number.
    pub sigs: Vec<i32>,
}

impl View for SignalSet {
    type V = Set<i32>;

    open spec fn view(&self) -> Set<i32> {
        self.sigs@.to_set()
    }
}

impl SignalSet {
    /// The internal invariant: no duplicate members, and every member is a
    /// standard signal number.
    pub open spec fn wf(&self) -> bool {
        &&& self.sigs@.no_duplicates()
        &&& forall|i: int| 0 <= i < self.sigs@.len() ==> valid_signal(#[trigger] self.sigs@[i])
    }

    /// The set with no members.
    pub fn empty() -> (r: SignalSet)
        ensures
            r.wf(),
            r@ == Set::<i32>::empty(),
    {
        let r = SignalSet { sigs: Vec::new() };
        proof {
            assert(r@ =~= Set::<i32>::empty());
        }
        r
    }

    /// Whether `sig` is a member.
    pub fn contains(&self, sig: i32) -> (r: bool)
        ensures
            r == self@.contains(sig),
    {
        let mut i: usize = 0;
        while i < self.sigs.len()
            invariant
                i <= self.sigs.len(),
                forall|k: int| 0 <= k < i ==> self.sigs@[k] != sig,
            decreases self.sigs.len() - i,
        {
            if self.sigs[i] == sig {
                proof {
                    assert(self.sigs@.contains(sig));
                }
                return true;
            }
            i += 1;
        }
        proof {
            assert(!self.sigs@.contains(sig));
        }
        false
    }

    /// The number of members.
    pub fn len(&self) -> (r: usize)
        requires
            self.wf(),
        ensures
            r == self@.len(),
    {
        proof {
            self.sigs@.unique_seq_to_set();
        }
        self.sigs.len()
    }

    /// Adds `sig` to the set.  Succeeds exactly when `sig` is a standard
    /// signal number; an invalid identifier is rejected with the operating
    /// system's invalid-argument code and leaves the set unchanged.
    pub fn insert(&mut self, sig: i32) -> (r: Result<(), OsResourceError>)
        requires
            old(self).wf(),
        ensures
            final(self).wf(),
            valid_signal(sig) ==> r is Ok && final(self)@ == old(self)@.insert(sig),
            !valid_signal(sig) ==> (r matches Err(e) && e.code == ERR_INVALID_SIGNAL)
                && *final(self) == *old(self),
    {
        if sig < SIGNAL_MIN || sig > SIGNAL_MAX {
            return Err(OsResourceError { code: ERR_INVALID_SIGNAL });
        }
        if self.contains(sig) {
            proof {
                assert(self@ =~= old(self)@.insert(sig));
            }
            return Ok(());
        }
        proof {
            assert forall|k: int| 0 <= k < self.sigs@.len() implies self.sigs@[k] != sig by {
                if self.sigs@[k] == sig {
                    assert(self.sigs@.contains(sig));
                }
            }
        }
        self.sigs.push(sig);
        proof {
            broadcast use vstd::seq_lib::lemma_seq_contains_after_push;

            assert(self.sigs@ =~= old(self).sigs@ + seq![sig]);
            Seq::<i32>::lemma_to_set_insert_commutes(old(self).sigs@, sig);
            assert(self@ =~= old(self)@.insert(sig));
        }
        Ok(())
    }

    /// Removes `sig` from the set; removing an absent member leaves the set
    /// unchanged.
    pub fn remove(&mut self, sig: i32)
        requires
            old(self).wf(),
        ensures
            final(self).wf(),
            final(self)@ == old(self)@.remove(sig),
    {
        let mut kept: Vec<i32> = Vec::new();
        let mut i: usize = 0;
        while i < self.sigs.len()
            invariant
                i <= self.sigs.len(),
                *self == *old(self),
                old(self).wf(),
                kept@.no_duplicates(),
                forall|k: int| 0 <= k < kept@.len() ==> valid_signal(#[trigger] kept@[k]),
                forall|x: i32| #[trigger] kept@.contains(x) <==> (exists|k: int|
                    0 <= k < i && self.sigs@[k] == x && x != sig),
            decreases self.sigs.len() - i,
        {
            let x = self.sigs[i];
            if x != sig {
                proof {
                    if kept@.contains(x) {
                        let k = choose|k: int| 0 <= k < i && self.sigs@[k] == x && x != sig;
                        assert(self.sigs@[k] == self.sigs@[i as int]);
                        assert(false);
                    }
                    broadcast use vstd::seq_lib::lemma_seq_contains_after_push;
                }
                kept.push(x);
            }
            i += 1;
        }
        proof {
            assert forall|x: i32| kept@.contains(x) <==> (old(self)@.contains(x) && x != sig) by {
                if old(self).sigs@.contains(x) && x != sig {
                    let k = choose|k: int| 0 <= k < old(self).sigs@.len() && old(self).sigs@[k] == x;
                    assert(exists|j: int|
                        0 <= j < old(self).sigs@.len() && old(self).sigs@[j] == x && x != sig);
                }
            }
        }
        self.sigs = kept;
        proof {
            assert(self@ =~= old(self)@.remove(sig));
        }
    }

    /// Adds every member of `other` to the set.
    pub fn union_with(&mut self, other: &SignalSet)
        requires
            old(self).wf(),
            other.wf(),
        ensures
            final(self).wf(),
            final(self)@ == old(self)@.union(other@),
    {
        let mut i: usize = 0;
        while i < other.sigs.len()
            invariant
                i <= other.sigs.len(),
                other.wf(),
                self.wf(),
                self@ == old(self)@.union(other.sigs@.subrange(0, i as int).to_set()),
            decreases other.sigs.len() - i,
        {
            let ghost prefix = other.sigs@.subrange(0, i as int);
            let x = other.sigs[i];
            let _ = self.insert(x);
            proof {
                assert(prefix + seq![x] =~= other.sigs@.subrange(0, i as int + 1));
                Seq::<i32>::lemma_to_set_insert_commutes(prefix, x);
                assert(self@ =~= old(self)@.union(other.sigs@.subrange(0, i as int + 1).to_set()));
            }
            i += 1;
        }
        proof {
            assert(other.sigs@.subrange(0, other.sigs@.len() as int) =~= other.sigs@);
        }
    }

    /// Removes every member of `other` from the set.
    pub fn subtract(&mut self, other: &SignalSet)
        requires
            old(self).wf(),
            other.wf(),
        ensures
            final(self).wf(),
            final(self)@ == old(self)@.difference(other@),
    {
        let mut i: usize = 0;
        while i < other.sigs.len()
            invariant
                i <= other.sigs.len(),
                other.wf(),
                self.wf(),
                self@ == old(self)@.difference(other.sigs@.subrange(0, i as int).to_set()),
            decreases other.sigs.len() - i,
        {
            let ghost prefix = other.sigs@.subrange(0, i as int);
            let x = other.sigs[i];
            self.remove(x);
            proof {
                assert(prefix + seq![x] =~= other.sigs@.subrange(0, i as int + 1));
                Seq::<i32>::lemma_to_set_insert_commutes(prefix, x);
                assert(self@ =~= old(self)@.difference(
                    other.sigs@.subrange(0, i as int + 1).to_set(),
                ));
            }
            i += 1;
        }
        proof {
            assert(other.sigs@.subrange(0, other.sigs@.len() as int) =~= other.sigs@);
        }
    }

    /// Decides the internal invariant at run time, for callers outside the
    /// verified world that must establish it before relying on it.
    pub fn well_formed(&self) -> (r: bool)
        ensures
            r == self.wf(),
    {
        let mut i: usize = 0;
        while i < self.sigs.len()
            invariant
                i <= self.sigs.len(),
                forall|k: int| 0 <= k < i ==> valid_signal(#[trigger] self.sigs@[k]),
                forall|k1: int, k2: int|
                    0 <= k1 < i && k1 < k2 < self.sigs@.len() ==> self.sigs@[k1]
                        != self.sigs@[k2],
            decreases self.sigs.len() - i,
        {
            let x = self.sigs[i];
            if x < SIGNAL_MIN || x > SIGNAL_MAX {
                proof {
                    assert(!valid_signal(self.sigs@[i as int]));
                }
                return false;
            }
            let mut j: usize = i + 1;
            while j < self.sigs.len()
                invariant
                    i < j <= self.sigs.len(),
                    i < self.sigs.len(),
                    x == self.sigs@[i as int],
                    forall|k: int| i < k < j ==> self.sigs@[k] != x,
                decreases self.sigs.len() - j,
            {
                if self.sigs[j] == x {
                    proof {
                        assert(self.sigs@[i as int] == self.sigs@[j as int]);
                        assert(!self.sigs@.no_duplicates());
                    }
                    return false;
                }
                j += 1;
            }
            i += 1;
        }
        proof {
            assert(self.sigs@.no_duplicates());
        }
        true
    }

    /// Builds a set from a list of signal numbers.  Succeeds exactly when
    /// every listed number is a standard signal; duplicates collapse.
    pub fn from_list(list: &Vec<i32>) -> (r: Result<SignalSet, OsResourceError>)
        ensures
            (forall|k: int| 0 <= k < list@.len() ==> valid_signal(#[trigger] list@[k]))
                <==> r is Ok,
            r matches Ok(s) ==> s.wf() && s@ == list@.to_set(),
            r matches Err(e) ==> e.code == ERR_INVALID_SIGNAL,
    {
        let mut s = SignalSet::empty();
        let mut i: usize = 0;
        while i < list.len()
            invariant
                i <= list.len(),
                s.wf(),
                s@ == list@.subrange(0, i as int).to_set(),
                forall|k: int| 0 <= k < i ==> valid_signal(#[trigger] list@[k]),
            decreases list.len() - i,
        {
            let ghost prefix = list@.subrange(0, i as int);
            let x = list[i];
            match s.insert(x) {
                Ok(()) => {}
                Err(e) => {
                    return Err(e);
                }
            }
            proof {
                assert(prefix + seq![x] =~= list@.subrange(0, i as int + 1));
                Seq::<i32>::lemma_to_set_insert_commutes(prefix, x);
                assert(s@ =~= list@.subrange(0, i as int + 1).to_set());
            }
            i += 1;
        }
        proof {
            assert(list@.subrange(0, list@.len() as int) =~= list@);
        }
        Ok(s)
    }
}

} // verus!
