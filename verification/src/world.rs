//! A ledger as the pool sees it, and what an invocation does to one.

use vstd::prelude::*;

use crate::address::{Address, Bytes32};
use crate::error::Error;
use crate::host::{HostCall, Reply, Step};
use crate::runs;
use crate::storage;
use crate::storage::{DataKey, Value};

verus! {

/// How much of a token an address holds.
pub type Balances = spec_fn(Address, Address) -> i128;

/// What an invocation finds that is not the pool's to change.
pub struct Setting {
    /// The addresses that authorized the invocation.
    pub signers: Set<Address>,
    /// The hashes of the code that has been uploaded.
    pub uploaded: Set<Bytes32>,
    /// The calls that a token refuses for reasons of its own, given what
    /// everyone holds: a holder is not authorized to hold it, an amount is over
    /// a holder's limit, there is no such token.
    pub refuses: spec_fn(Balances, HostCall) -> bool,
}

/// A ledger with one pool on it, at the moment of an invocation. Its tokens move
/// exactly what they are told to, or trap.
pub struct World {
    /// The network's USDC contract.
    pub usdc: Address,
    /// The pool's own address.
    pub pool: Address,
    /// The pool's instance storage.
    pub entries: Map<DataKey, Value>,
    /// How much of a token an address holds.
    pub balance: Balances,
    /// Whether an address issues a token: what is paid to it is gone, and what
    /// it pays is new, so that its own balance stays the same.
    pub issues: spec_fn(Address, Address) -> bool,
    /// The hash of the pool's code.
    pub code: Bytes32,
    pub setting: Setting,
}

impl World {
    /// The value of an entry, if there is one.
    pub open spec fn entry(self, key: DataKey) -> Option<Value> {
        if self.entries.contains_key(key) {
            Some(self.entries[key])
        } else {
            None
        }
    }

    pub open spec fn admin(self) -> Option<Address> {
        storage::entry_address(self.entry(DataKey::Admin))
    }

    pub open spec fn token_in(self) -> Option<Address> {
        storage::entry_address(self.entry(DataKey::TokenIn))
    }

    pub open spec fn token_out(self) -> Option<Address> {
        storage::entry_address(self.entry(DataKey::TokenOut))
    }

    pub open spec fn rate(self) -> Option<u32> {
        storage::entry_rate(self.entry(DataKey::Rate))
    }

    /// Whether the pool has been set up: every entry is there and holds what it
    /// should.
    pub open spec fn configured(self) -> bool {
        &&& self.admin() is Some
        &&& self.token_in() is Some
        &&& self.token_out() is Some
        &&& self.rate() is Some
    }

    /// How much the pool can pay out.
    pub open spec fn liquidity(self) -> i128 {
        (self.balance)(self.token_out()->0, self.pool)
    }

    /// The same ledger at another invocation.
    pub open spec fn under(self, setting: Setting) -> World {
        World { setting, ..self }
    }

    /// The same ledger but for the setting and for what everyone holds.
    pub open spec fn same_pool(self, other: World) -> bool {
        &&& self.usdc == other.usdc
        &&& self.pool == other.pool
        &&& self.entries == other.entries
        &&& self.issues == other.issues
        &&& self.code == other.code
    }

    /// Whether a token tells what `holder` has of it.
    pub open spec fn can_tell(self, token: Address, holder: Address) -> bool {
        !(self.setting.refuses)(self.balance, HostCall::Balance { token, holder })
    }

    /// Whether a token refuses a transfer for reasons of its own.
    pub open spec fn refuses_transfer(
        self,
        token: Address,
        from: Address,
        to: Address,
        amount: i128,
    ) -> bool {
        (self.setting.refuses)(self.balance, HostCall::Transfer { token, from, to, amount })
    }

    /// Whether a token moves `amount`: it does not move less than nothing, nor
    /// more than `from` holds, nor what `to` could not hold, nor what it refuses
    /// to. What its issuer holds is no limit.
    pub open spec fn can_transfer(
        self,
        token: Address,
        from: Address,
        to: Address,
        amount: i128,
    ) -> bool {
        &&& 0 <= amount
        &&& (self.issues)(token, from) || amount <= (self.balance)(token, from)
        &&& from == to || (self.issues)(token, to) || (self.balance)(token, to) + amount
            <= i128::MAX
        &&& !self.refuses_transfer(token, from, to, amount)
    }

    /// How much `holder` gains of the token `of` where `amount` of `token` moves.
    pub open spec fn gain(
        self,
        token: Address,
        from: Address,
        to: Address,
        amount: i128,
        of: Address,
        holder: Address,
    ) -> int {
        if of != token || from == to || (self.issues)(token, holder) {
            0
        } else if holder == from {
            -amount
        } else if holder == to {
            amount as int
        } else {
            0
        }
    }

    /// The ledger once a token has moved `amount`.
    pub open spec fn transferred(
        self,
        token: Address,
        from: Address,
        to: Address,
        amount: i128,
    ) -> World {
        World {
            balance: |of: Address, holder: Address|
                ((self.balance)(of, holder) + self.gain(
                    token,
                    from,
                    to,
                    amount,
                    of,
                    holder,
                )) as i128,
            ..self
        }
    }

    /// What a call to the host leaves behind, and the reply to it; nothing
    /// where the host traps.
    pub open spec fn respond(self, call: HostCall) -> Option<(World, Reply)> {
        match call {
            HostCall::NetworkUsdc => Some((self, Reply::Address(self.usdc))),
            HostCall::CurrentContract => Some((self, Reply::Address(self.pool))),
            HostCall::RequireAuth { address } => if self.setting.signers.contains(address) {
                Some((self, Reply::Done))
            } else {
                None
            },
            HostCall::Has { key } => Some((self, Reply::Found(self.entries.contains_key(key)))),
            HostCall::Load { key } => Some((self, Reply::Entry(self.entry(key)))),
            HostCall::Store { key, value } => Some(
                (World { entries: self.entries.insert(key, value), ..self }, Reply::Done),
            ),
            HostCall::Balance { token, holder } => if self.can_tell(token, holder) {
                Some((self, Reply::Balance((self.balance)(token, holder))))
            } else {
                None
            },
            HostCall::Transfer { token, from, to, amount } => if self.can_transfer(
                token,
                from,
                to,
                amount,
            ) {
                Some((self.transferred(token, from, to, amount), Reply::Done))
            } else {
                None
            },
            HostCall::UpdateWasm { hash } => if self.setting.uploaded.contains(hash) {
                Some((World { code: hash, ..self }, Reply::Done))
            } else {
                None
            },
        }
    }
}

/// How an invocation ends.
pub enum Outcome<T> {
    /// It returned `value` and left the ledger as `world`.
    Returned { world: World, value: T },
    /// It trapped: the ledger is as it was.
    Trapped,
    /// It was cut off.
    Unfinished,
}

/// Runs an invocation, given as its next step for any replies, until it ends or
/// has put `limit` further calls.
pub open spec fn play<T>(
    world: World,
    program: spec_fn(Seq<Reply>) -> Step<T>,
    replies: Seq<Reply>,
    limit: nat,
) -> Outcome<T>
    decreases limit,
{
    match program(replies) {
        Step::Return(value) => Outcome::Returned { world, value },
        Step::Trap(_) => Outcome::Trapped,
        Step::Call(call) => match world.respond(call) {
            None => Outcome::Trapped,
            Some((next, reply)) => if limit == 0 {
                Outcome::Unfinished
            } else {
                play(next, program, replies.push(reply), (limit - 1) as nat)
            },
        },
    }
}

/// The most calls that an invocation of the pool puts to its host.
pub const CALL_LIMIT: usize = 8;

/// The steps of a `set_config`.
pub open spec fn set_config_program(
    admin: Address,
    token_in: Address,
    token_out: Address,
    rate_bps: u32,
) -> spec_fn(Seq<Reply>) -> Step<()> {
    |replies: Seq<Reply>|
        runs::set_config_run(
            admin,
            token_in,
            token_out,
            rate_bps,
            runs::set_config_facts(replies),
        ).at(replies.len())
}

/// What a `set_config` does to a ledger.
pub open spec fn set_config(
    world: World,
    admin: Address,
    token_in: Address,
    token_out: Address,
    rate_bps: u32,
) -> Outcome<()> {
    play(
        world,
        set_config_program(admin, token_in, token_out, rate_bps),
        seq![],
        CALL_LIMIT as nat,
    )
}

/// The steps of an `initialize`.
pub open spec fn initialize_program(
    admin: Address,
    token_in: Address,
    rate_bps: u32,
) -> spec_fn(Seq<Reply>) -> Step<()> {
    |replies: Seq<Reply>|
        runs::initialize_run(admin, token_in, rate_bps, runs::initialize_facts(replies)).at(
            replies.len(),
        )
}

/// What an `initialize` does to a ledger.
pub open spec fn initialize(
    world: World,
    admin: Address,
    token_in: Address,
    rate_bps: u32,
) -> Outcome<()> {
    play(world, initialize_program(admin, token_in, rate_bps), seq![], CALL_LIMIT as nat)
}

/// The steps of a `swap`.
pub open spec fn swap_program(
    to: Address,
    amount_in: i128,
    min_amount_out: i128,
) -> spec_fn(Seq<Reply>) -> Step<Result<i128, Error>> {
    |replies: Seq<Reply>|
        runs::swap_run(to, amount_in, min_amount_out, runs::swap_facts(replies)).at(replies.len())
}

/// What a `swap` does to a ledger.
pub open spec fn swap(
    world: World,
    to: Address,
    amount_in: i128,
    min_amount_out: i128,
) -> Outcome<Result<i128, Error>> {
    play(world, swap_program(to, amount_in, min_amount_out), seq![], CALL_LIMIT as nat)
}

/// The steps of a `deposit_liquidity`.
pub open spec fn deposit_liquidity_program(
    from: Address,
    amount_out: i128,
) -> spec_fn(Seq<Reply>) -> Step<()> {
    |replies: Seq<Reply>|
        runs::deposit_liquidity_run(from, amount_out, runs::deposit_liquidity_facts(replies)).at(
            replies.len(),
        )
}

/// What a `deposit_liquidity` does to a ledger.
pub open spec fn deposit_liquidity(
    world: World,
    from: Address,
    amount_out: i128,
) -> Outcome<()> {
    play(world, deposit_liquidity_program(from, amount_out), seq![], CALL_LIMIT as nat)
}

/// The steps of a `withdraw_liquidity`.
pub open spec fn withdraw_liquidity_program(
    to: Address,
    amount: i128,
) -> spec_fn(Seq<Reply>) -> Step<Result<(), Error>> {
    |replies: Seq<Reply>|
        runs::withdraw_liquidity_run(to, amount, runs::withdraw_liquidity_facts(replies)).at(
            replies.len(),
        )
}

/// What a `withdraw_liquidity` does to a ledger.
pub open spec fn withdraw_liquidity(
    world: World,
    to: Address,
    amount: i128,
) -> Outcome<Result<(), Error>> {
    play(world, withdraw_liquidity_program(to, amount), seq![], CALL_LIMIT as nat)
}

/// The steps of an `upgrade`.
pub open spec fn upgrade_program(
    admin: Address,
    new_wasm_hash: Bytes32,
) -> spec_fn(Seq<Reply>) -> Step<Result<(), Error>> {
    |replies: Seq<Reply>|
        runs::upgrade_run(admin, new_wasm_hash, runs::upgrade_facts(replies)).at(replies.len())
}

/// What an `upgrade` does to a ledger.
pub open spec fn upgrade(
    world: World,
    admin: Address,
    new_wasm_hash: Bytes32,
) -> Outcome<Result<(), Error>> {
    play(world, upgrade_program(admin, new_wasm_hash), seq![], CALL_LIMIT as nat)
}

} // verus!
