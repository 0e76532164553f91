//! What the pool keeps in its instance storage.

use vstd::prelude::*;

use crate::address::Address;

verus! {

/// The entries of the pool's instance storage.
#[derive(Clone, Copy, Debug, PartialEq, Eq, Structural)]
pub enum DataKey {
    Admin,
    /// The token that traders pay in, wPi.
    TokenIn,
    /// The token that the pool pays out, the network's USDC.
    TokenOut,
    /// Units of `TokenOut` paid for a million units of `TokenIn`.
    Rate,
}

/// The value of an entry.
#[derive(Clone, Copy, Debug, PartialEq, Eq, Structural)]
pub enum Value {
    Address(Address),
    Rate(u32),
}

/// The address that an entry holds, if the entry is there and holds one.
pub open spec fn entry_address(entry: Option<Value>) -> Option<Address> {
    match entry {
        Some(Value::Address(address)) => Some(address),
        _ => None,
    }
}

/// The rate that an entry holds, if the entry is there and holds one.
pub open spec fn entry_rate(entry: Option<Value>) -> Option<u32> {
    match entry {
        Some(Value::Rate(rate)) => Some(rate),
        _ => None,
    }
}

} // verus!
