//! The single error kind of the library.
//!
//! Every fallible operation reports failure uniformly as an
//! [`OsResourceError`] wrapping the raw operating-system error code; callers
//! distinguish failures by operation context, not by a richer kind hierarchy.

use vstd::prelude::*;

verus! {

/// The operating-system error code reported when a signal identifier is not
/// one the platform accepts (the `EINVAL` code on Linux).
pub const ERR_INVALID_SIGNAL: i32 = 22;

/// A failure of a mask-mutation or notification-object system call, carrying
/// the raw operating-system error code unchanged.
#[derive(Copy, Clone, Debug, PartialEq, Eq, Structural)]
pub struct OsResourceError {
    /// The raw error code the operating system reported.
    pub code: i32,
}

impl OsResourceError {
    /// The raw operating-system error code.
    pub fn code(&self) -> (r: i32)
        ensures
            r == self.code,
    {
        self.code
    }
}

/// Wraps a raw operating-system error code in the library's error kind.
pub fn no_nix_err(err: i32) -> (r: OsResourceError)
    ensures
        r.code == err,
{
    OsResourceError { code: err }
}

} // verus!
