//! The pool's entry points.
//!
//! Each takes the arguments of an invocation and the host's replies to the
//! calls put to it so far, and says what comes next.

use vstd::prelude::*;
use vstd::slice::slice_subrange;

use crate::address::{Address, Bytes32};
use crate::error::{Error, Fault};
use crate::host::{HostCall, Reply, Step};
use crate::pricing::quote;
use crate::runs;
use crate::storage;
use crate::storage::{DataKey, Value};

verus! {

/// Reading an entry that holds an address, as call number `at`.
spec fn address_read(replies: Seq<Reply>, at: int, key: DataKey) -> Step<Address> {
    if at == replies.len() {
        Step::Call(HostCall::Load { key })
    } else {
        match storage::entry_address(replies[at]->Entry_0) {
            Some(address) => Step::Return(address),
            None => Step::Trap(Fault::MissingEntry(key)),
        }
    }
}

/// Reads an entry that holds an address, as call number `at`.
fn read_address(replies: &[Reply], at: usize, key: DataKey) -> (step: Step<Address>)
    requires
        at <= replies@.len(),
        at < replies@.len() ==> replies@[at as int] is Entry,
    ensures
        step == address_read(replies@, at as int, key),
{
    if at == replies.len() {
        return Step::Call(HostCall::Load { key });
    }
    match replies[at] {
        Reply::Entry(Some(Value::Address(address))) => Step::Return(address),
        _ => Step::Trap(Fault::MissingEntry(key)),
    }
}

/// Reads the admin, as call number `at`.
fn read_admin(replies: &[Reply], at: usize) -> (step: Step<Address>)
    requires
        at <= replies@.len(),
        at < replies@.len() ==> replies@[at as int] is Entry,
    ensures
        step == address_read(replies@, at as int, DataKey::Admin),
{
    read_address(replies, at, DataKey::Admin)
}

/// Reads the token that the pool pays out, as call number `at`.
fn read_token_out(replies: &[Reply], at: usize) -> (step: Step<Address>)
    requires
        at <= replies@.len(),
        at < replies@.len() ==> replies@[at as int] is Entry,
    ensures
        step == address_read(replies@, at as int, DataKey::TokenOut),
{
    read_address(replies, at, DataKey::TokenOut)
}

/// Reads the rate, as call number `at`.
fn read_rate(replies: &[Reply], at: usize) -> (step: Step<u32>)
    requires
        at <= replies@.len(),
        at < replies@.len() ==> replies@[at as int] is Entry,
    ensures
        at == replies@.len() ==> step == Step::<u32>::Call(HostCall::Load { key: DataKey::Rate }),
        at < replies@.len() ==> step == match storage::entry_rate(replies@[at as int]->Entry_0) {
            Some(rate) => Step::Return(rate),
            None => Step::Trap(Fault::MissingEntry(DataKey::Rate)),
        },
{
    if at == replies.len() {
        return Step::Call(HostCall::Load { key: DataKey::Rate });
    }
    match replies[at] {
        Reply::Entry(Some(Value::Rate(rate))) => Step::Return(rate),
        _ => Step::Trap(Fault::MissingEntry(DataKey::Rate)),
    }
}

/// Asks for the pool's own address, as call number `at`.
fn current_contract(replies: &[Reply], at: usize) -> (step: Step<Address>)
    requires
        at <= replies@.len(),
        at < replies@.len() ==> replies@[at as int] is Address,
    ensures
        at == replies@.len() ==> step == Step::<Address>::Call(HostCall::CurrentContract),
        at < replies@.len() ==> step == Step::Return(replies@[at as int]->Address_0),
{
    if at == replies.len() {
        return Step::Call(HostCall::CurrentContract);
    }
    match replies[at] {
        Reply::Address(address) => Step::Return(address),
        _ => Step::Call(HostCall::CurrentContract),
    }
}

/// Asks for a balance, as call number `at`.
fn balance(replies: &[Reply], at: usize, token: Address, holder: Address) -> (step: Step<i128>)
    requires
        at <= replies@.len(),
        at < replies@.len() ==> replies@[at as int] is Balance,
    ensures
        at == replies@.len() ==> step == Step::<i128>::Call(HostCall::Balance { token, holder }),
        at < replies@.len() ==> step == Step::Return(replies@[at as int]->Balance_0),
{
    if at == replies.len() {
        return Step::Call(HostCall::Balance { token, holder });
    }
    match replies[at] {
        Reply::Balance(amount) => Step::Return(amount),
        _ => Step::Call(HostCall::Balance { token, holder }),
    }
}

/// A pool that swaps wPi for USDC at a fixed rate.
#[derive(Clone, Copy, Debug, PartialEq, Eq)]
pub struct MockAmm;

impl MockAmm {
    /// Sets the pool up to take `token_in` and pay the network's USDC, at
    /// `rate_bps` millionths. `admin` has to authorize that.
    pub fn initialize(
        admin: Address,
        token_in: Address,
        rate_bps: u32,
        replies: &[Reply],
    ) -> (step: Step<()>)
        requires
            runs::initialize_run(
                admin,
                token_in,
                rate_bps,
                runs::initialize_facts(replies@),
            ).hears(replies@),
        ensures
            step == runs::initialize_run(
                admin,
                token_in,
                rate_bps,
                runs::initialize_facts(replies@),
            ).at(replies@.len()),
    {
        if replies.len() == 0 {
            return Step::Call(HostCall::NetworkUsdc);
        }
        if replies.len() == 1 {
            return Step::Call(HostCall::RequireAuth { address: admin });
        }
        let token_out = match replies[0] {
            Reply::Address(usdc) => usdc,
            _ => return Step::Call(HostCall::NetworkUsdc),
        };
        let rest = slice_subrange(replies, 2, replies.len());
        Self::set_config(admin, token_in, token_out, rate_bps, rest)
    }

    /// Writes the pool's configuration, which is done once.
    pub fn set_config(
        admin: Address,
        token_in: Address,
        token_out: Address,
        rate_bps: u32,
        replies: &[Reply],
    ) -> (step: Step<()>)
        requires
            runs::set_config_run(
                admin,
                token_in,
                token_out,
                rate_bps,
                runs::set_config_facts(replies@),
            ).hears(replies@),
        ensures
            step == runs::set_config_run(
                admin,
                token_in,
                token_out,
                rate_bps,
                runs::set_config_facts(replies@),
            ).at(replies@.len()),
    {
        if replies.len() == 0 {
            return Step::Call(HostCall::Has { key: DataKey::Admin });
        }
        if let Reply::Found(true) = replies[0] {
            return Step::Trap(Fault::AlreadyInitialized);
        }
        if replies.len() == 1 {
            return Step::Call(
                HostCall::Store { key: DataKey::Admin, value: Value::Address(admin) },
            );
        }
        if replies.len() == 2 {
            return Step::Call(
                HostCall::Store { key: DataKey::TokenIn, value: Value::Address(token_in) },
            );
        }
        if replies.len() == 3 {
            return Step::Call(
                HostCall::Store { key: DataKey::TokenOut, value: Value::Address(token_out) },
            );
        }
        if replies.len() == 4 {
            return Step::Call(
                HostCall::Store { key: DataKey::Rate, value: Value::Rate(rate_bps) },
            );
        }
        Step::Return(())
    }

    /// Swaps `amount_in` of the token that the pool takes for the network's
    /// USDC, and returns how much was paid to `to`.
    pub fn swap(
        to: Address,
        amount_in: i128,
        min_amount_out: i128,
        replies: &[Reply],
    ) -> (step: Step<Result<i128, Error>>)
        requires
            runs::swap_run(to, amount_in, min_amount_out, runs::swap_facts(replies@)).hears(
                replies@,
            ),
        ensures
            step == runs::swap_run(to, amount_in, min_amount_out, runs::swap_facts(replies@)).at(
                replies@.len(),
            ),
    {
        if replies.len() == 0 {
            return Step::Call(HostCall::RequireAuth { address: to });
        }
        let token_in = match read_address(replies, 1, DataKey::TokenIn) {
            Step::Call(call) => return Step::Call(call),
            Step::Trap(fault) => return Step::Trap(fault),
            Step::Return(address) => address,
        };
        let token_out = match read_token_out(replies, 2) {
            Step::Call(call) => return Step::Call(call),
            Step::Trap(fault) => return Step::Trap(fault),
            Step::Return(address) => address,
        };
        let rate: u32 = match read_rate(replies, 3) {
            Step::Call(call) => return Step::Call(call),
            Step::Trap(fault) => return Step::Trap(fault),
            Step::Return(rate) => rate,
        };
        let amount_out: i128 = match quote(amount_in, rate) {
            Some(amount) => amount,
            None => return Step::Trap(Fault::Overflow),
        };
        if amount_out < min_amount_out {
            return Step::Return(Err(Error::SlippageExceeded));
        }
        let pool = match current_contract(replies, 4) {
            Step::Call(call) => return Step::Call(call),
            Step::Trap(fault) => return Step::Trap(fault),
            Step::Return(address) => address,
        };
        let liquidity: i128 = match balance(replies, 5, token_out, pool) {
            Step::Call(call) => return Step::Call(call),
            Step::Trap(fault) => return Step::Trap(fault),
            Step::Return(amount) => amount,
        };
        if liquidity < amount_out {
            return Step::Return(Err(Error::InsufficientLiquidity));
        }
        if replies.len() == 6 {
            return Step::Call(
                HostCall::Transfer { token: token_in, from: to, to: pool, amount: amount_in },
            );
        }
        if replies.len() == 7 {
            return Step::Call(
                HostCall::Transfer { token: token_out, from: pool, to, amount: amount_out },
            );
        }
        Step::Return(Ok(amount_out))
    }

    /// Adds `amount_out` of the token that the pool pays out to its liquidity.
    pub fn deposit_liquidity(from: Address, amount_out: i128, replies: &[Reply]) -> (step: Step<()>)
        requires
            runs::deposit_liquidity_run(
                from,
                amount_out,
                runs::deposit_liquidity_facts(replies@),
            ).hears(replies@),
        ensures
            step == runs::deposit_liquidity_run(
                from,
                amount_out,
                runs::deposit_liquidity_facts(replies@),
            ).at(replies@.len()),
    {
        if replies.len() == 0 {
            return Step::Call(HostCall::RequireAuth { address: from });
        }
        let token_out = match read_token_out(replies, 1) {
            Step::Call(call) => return Step::Call(call),
            Step::Trap(fault) => return Step::Trap(fault),
            Step::Return(address) => address,
        };
        let pool = match current_contract(replies, 2) {
            Step::Call(call) => return Step::Call(call),
            Step::Trap(fault) => return Step::Trap(fault),
            Step::Return(address) => address,
        };
        if replies.len() == 3 {
            return Step::Call(
                HostCall::Transfer { token: token_out, from, to: pool, amount: amount_out },
            );
        }
        Step::Return(())
    }

    /// Pays pooled liquidity out again, the counterpart to
    /// [`MockAmm::deposit_liquidity`]. There is no account of who deposited
    /// what: only the pool's admin can recover liquidity.
    ///
    /// The admin is read from storage and not an argument, so that no address
    /// that a caller supplies can stand in for it.
    pub fn withdraw_liquidity(to: Address, amount: i128, replies: &[Reply]) -> (step: Step<
        Result<(), Error>,
    >)
        requires
            runs::withdraw_liquidity_run(
                to,
                amount,
                runs::withdraw_liquidity_facts(replies@),
            ).hears(replies@),
        ensures
            step == runs::withdraw_liquidity_run(
                to,
                amount,
                runs::withdraw_liquidity_facts(replies@),
            ).at(replies@.len()),
    {
        let admin = match read_admin(replies, 0) {
            Step::Call(call) => return Step::Call(call),
            Step::Trap(fault) => return Step::Trap(fault),
            Step::Return(address) => address,
        };
        if replies.len() == 1 {
            return Step::Call(HostCall::RequireAuth { address: admin });
        }
        if amount <= 0 {
            return Step::Return(Err(Error::InvalidAmount));
        }
        let token_out = match read_token_out(replies, 2) {
            Step::Call(call) => return Step::Call(call),
            Step::Trap(fault) => return Step::Trap(fault),
            Step::Return(address) => address,
        };
        let pool = match current_contract(replies, 3) {
            Step::Call(call) => return Step::Call(call),
            Step::Trap(fault) => return Step::Trap(fault),
            Step::Return(address) => address,
        };
        let liquidity: i128 = match balance(replies, 4, token_out, pool) {
            Step::Call(call) => return Step::Call(call),
            Step::Trap(fault) => return Step::Trap(fault),
            Step::Return(amount) => amount,
        };
        if liquidity < amount {
            return Step::Return(Err(Error::InsufficientLiquidity));
        }
        if replies.len() == 5 {
            return Step::Call(
                HostCall::Transfer { token: token_out, from: pool, to, amount },
            );
        }
        Step::Return(Ok(()))
    }

    /// Replaces the pool's code, which only the admin can do.
    pub fn upgrade(admin: Address, new_wasm_hash: Bytes32, replies: &[Reply]) -> (step: Step<
        Result<(), Error>,
    >)
        requires
            runs::upgrade_run(admin, new_wasm_hash, runs::upgrade_facts(replies@)).hears(replies@),
        ensures
            step == runs::upgrade_run(admin, new_wasm_hash, runs::upgrade_facts(replies@)).at(
                replies@.len(),
            ),
    {
        let current_admin = match read_admin(replies, 0) {
            Step::Call(call) => return Step::Call(call),
            Step::Trap(fault) => return Step::Trap(fault),
            Step::Return(address) => address,
        };
        if admin != current_admin {
            return Step::Return(Err(Error::NotAdmin));
        }
        if replies.len() == 1 {
            return Step::Call(HostCall::RequireAuth { address: admin });
        }
        if replies.len() == 2 {
            return Step::Call(HostCall::UpdateWasm { hash: new_wasm_hash });
        }
        Step::Return(Ok(()))
    }
}

} // verus!
