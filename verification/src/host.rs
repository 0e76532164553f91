//! The calls that the pool puts to its host, and what the host replies.

use vstd::prelude::*;

use crate::address::{Address, Bytes32};
use crate::error::Fault;
use crate::storage::{DataKey, Value};

verus! {

/// A call to the host.
#[derive(Clone, Copy, Debug, PartialEq, Eq, Structural)]
pub enum HostCall {
    /// The USDC contract of the network that the pool runs on.
    NetworkUsdc,
    /// The address of the pool itself.
    CurrentContract,
    /// Trap, unless `address` authorized this invocation.
    RequireAuth { address: Address },
    /// Whether instance storage holds an entry.
    Has { key: DataKey },
    /// The value of an entry of instance storage.
    Load { key: DataKey },
    /// Writes an entry of instance storage.
    Store { key: DataKey, value: Value },
    /// How much of `token` is `holder`'s.
    Balance { token: Address, holder: Address },
    /// Moves `amount` of `token`; a trap where the token refuses.
    Transfer { token: Address, from: Address, to: Address, amount: i128 },
    /// Replaces the pool's code.
    UpdateWasm { hash: Bytes32 },
}

/// The host's reply to a call.
#[derive(Clone, Copy, Debug, PartialEq, Eq, Structural)]
pub enum Reply {
    /// The call went through and has no result.
    Done,
    /// To `NetworkUsdc` and `CurrentContract`.
    Address(Address),
    /// To `Has`.
    Found(bool),
    /// To `Load`: the entry's value, if there is one.
    Entry(Option<Value>),
    /// To `Balance`.
    Balance(i128),
}

impl Reply {
    /// Whether this is the kind of reply that `call` gets.
    pub open spec fn answers(self, call: HostCall) -> bool {
        match call {
            HostCall::NetworkUsdc => self is Address,
            HostCall::CurrentContract => self is Address,
            HostCall::RequireAuth { .. } => self is Done,
            HostCall::Has { .. } => self is Found,
            HostCall::Load { .. } => self is Entry,
            HostCall::Store { .. } => self is Done,
            HostCall::Balance { .. } => self is Balance,
            HostCall::Transfer { .. } => self is Done,
            HostCall::UpdateWasm { .. } => self is Done,
        }
    }
}

/// What an invocation does next.
#[derive(Debug, PartialEq, Eq)]
pub enum Step<T> {
    /// Put a call to the host, and go on with its reply.
    Call(HostCall),
    /// Return to the caller.
    Return(T),
    /// Trap.
    Trap(Fault),
}

/// A whole invocation: the calls that it puts to the host, in order, and the
/// step that ends it.
pub struct Run<T> {
    pub calls: Seq<HostCall>,
    pub last: Step<T>,
}

impl<T> Run<T> {
    /// The step that follows the first `n` calls.
    pub open spec fn at(self, n: nat) -> Step<T> {
        if n < self.calls.len() {
            Step::Call(self.calls[n as int])
        } else {
            self.last
        }
    }

    /// Whether `replies` are replies to the first calls of this run, one each.
    pub open spec fn hears(self, replies: Seq<Reply>) -> bool {
        &&& replies.len() <= self.calls.len()
        &&& forall|i: int|
            0 <= i < replies.len() ==> (#[trigger] replies[i]).answers(self.calls[i])
    }

    /// The run that puts `call` first and then does what this one does.
    pub open spec fn after(self, call: HostCall) -> Run<T> {
        Run { calls: seq![call] + self.calls, last: self.last }
    }
}

} // verus!
