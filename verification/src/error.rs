//! How an invocation of the pool can fail.

use vstd::prelude::*;

use crate::storage::DataKey;

verus! {

/// An error that the pool returns to its caller.
#[derive(Clone, Copy, Debug, PartialEq, Eq, Structural)]
pub enum Error {
    NotAdmin,
    InsufficientLiquidity,
    SlippageExceeded,
    InvalidAmount,
}

impl Error {
    /// The number under which callers of the contract see the error.
    pub open spec fn spec_code(self) -> u32 {
        match self {
            Error::NotAdmin => 1,
            Error::InsufficientLiquidity => 2,
            Error::SlippageExceeded => 3,
            Error::InvalidAmount => 4,
        }
    }

    /// The number under which callers of the contract see the error.
    pub fn code(self) -> (code: u32)
        ensures
            code == self.spec_code(),
            self is NotAdmin ==> code == 1,
            self is InsufficientLiquidity ==> code == 2,
            self is SlippageExceeded ==> code == 3,
            self is InvalidAmount ==> code == 4,
    {
        match self {
            Error::NotAdmin => 1,
            Error::InsufficientLiquidity => 2,
            Error::SlippageExceeded => 3,
            Error::InvalidAmount => 4,
        }
    }
}

/// Why the pool traps: nothing is returned, and the host undoes whatever the
/// invocation did.
#[derive(Clone, Copy, Debug, PartialEq, Eq, Structural)]
pub enum Fault {
    /// The pool has been configured before.
    AlreadyInitialized,
    /// An entry is not in storage, or does not hold what it should.
    MissingEntry(DataKey),
    /// The product of the amount paid in and the rate does not fit the type of
    /// amounts.
    Overflow,
}

} // verus!
