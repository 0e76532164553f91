//! Identifiers that the pool carries around and compares.

use vstd::prelude::*;

verus! {

/// A 32-byte string, as its two big-endian halves.
#[derive(Clone, Copy, Debug, PartialEq, Eq, Structural)]
pub struct Bytes32 {
    pub hi: u128,
    pub lo: u128,
}

/// An address of the ledger: a classic account, by its key, or a contract, by
/// its hash. The pool treats both alike.
#[derive(Clone, Copy, Debug, PartialEq, Eq, Structural)]
pub enum Address {
    Account(Bytes32),
    Contract(Bytes32),
}

} // verus!
