//! What the pool and its host say to each other, call by call.
//!
//! Each law takes what the host has to say and gives the pool's part in full:
//! the calls, the return or the trap. It also says that the entry point takes
//! the replies so far.

use vstd::prelude::*;

use crate::address::{Address, Bytes32};
use crate::error::{Error, Fault};
use crate::host::{HostCall, Reply, Step};
use crate::runs;
use crate::storage::{DataKey, Value};

verus! {

/// A swap, for any trader, amounts, tokens, rate, pool and liquidity. The trader
/// signs, the entries are read, and then only three things decide: whether
/// `amount_in * rate` fits, whether a millionth of it, rounded toward zero, is
/// under the trader's limit, and whether that is over the liquidity.
pub proof fn swap_dialogue(
    to: Address,
    amount_in: i128,
    min_amount_out: i128,
    token_in: Address,
    token_out: Address,
    rate: u32,
    pool: Address,
    liquidity: i128,
)
    ensures
        ({
            let r = seq![
                Reply::Done,
                Reply::Entry(Some(Value::Address(token_in))),
                Reply::Entry(Some(Value::Address(token_out))),
                Reply::Entry(Some(Value::Rate(rate))),
                Reply::Address(pool),
                Reply::Balance(liquidity),
                Reply::Done,
                Reply::Done,
            ];
            let run = |n: int|
                runs::swap_run(to, amount_in, min_amount_out, runs::swap_facts(r.take(n)));
            let says = |n: int| run(n).at(r.take(n).len());
            let takes = |n: int| run(n).hears(r.take(n));
            let product = amount_in * rate;
            let fits = i128::MIN <= product <= i128::MAX;
            let amount_out = if product >= 0 {
                product / 1_000_000
            } else {
                -((-product) / 1_000_000)
            };
            let enough = fits && amount_out >= min_amount_out;
            let covered = enough && amount_out <= liquidity;
            &&& takes(0) && says(0) == Step::<Result<i128, Error>>::Call(
                HostCall::RequireAuth { address: to },
            )
            &&& takes(1) && says(1) == Step::<Result<i128, Error>>::Call(
                HostCall::Load { key: DataKey::TokenIn },
            )
            &&& takes(2) && says(2) == Step::<Result<i128, Error>>::Call(
                HostCall::Load { key: DataKey::TokenOut },
            )
            &&& takes(3) && says(3) == Step::<Result<i128, Error>>::Call(
                HostCall::Load { key: DataKey::Rate },
            )
            &&& takes(4)
            &&& !fits ==> says(4) == Step::<Result<i128, Error>>::Trap(Fault::Overflow)
            &&& fits && !enough ==> says(4) == Step::<Result<i128, Error>>::Return(
                Err(Error::SlippageExceeded),
            )
            &&& enough ==> says(4) == Step::<Result<i128, Error>>::Call(HostCall::CurrentContract)
            &&& enough ==> takes(5) && says(5) == Step::<Result<i128, Error>>::Call(
                HostCall::Balance { token: token_out, holder: pool },
            )
            &&& enough ==> takes(6)
            &&& enough && !covered ==> says(6) == Step::<Result<i128, Error>>::Return(
                Err(Error::InsufficientLiquidity),
            )
            &&& covered ==> says(6) == Step::<Result<i128, Error>>::Call(
                HostCall::Transfer { token: token_in, from: to, to: pool, amount: amount_in },
            )
            &&& covered ==> takes(7) && says(7) == Step::<Result<i128, Error>>::Call(
                HostCall::Transfer {
                    token: token_out,
                    from: pool,
                    to,
                    amount: amount_out as i128,
                },
            )
            &&& covered ==> i128::MIN <= amount_out <= i128::MAX
            &&& covered ==> takes(8) && says(8) == Step::<Result<i128, Error>>::Return(
                Ok(amount_out as i128),
            )
        }),
{
}

/// A swap traps at the first entry that is not there or does not hold what it
/// should.
pub proof fn swap_misses_an_entry(
    to: Address,
    amount_in: i128,
    min_amount_out: i128,
    token_in: Address,
    token_out: Address,
    entry: Option<Value>,
)
    ensures
        ({
            let done = Reply::Done;
            let first = Reply::Entry(Some(Value::Address(token_in)));
            let second = Reply::Entry(Some(Value::Address(token_out)));
            let odd = Reply::Entry(entry);
            let run = |r: Seq<Reply>|
                runs::swap_run(to, amount_in, min_amount_out, runs::swap_facts(r));
            let r2 = seq![done, odd];
            let r3 = seq![done, first, odd];
            let r4 = seq![done, first, second, odd];
            &&& run(r2).hears(r2) && run(r3).hears(r3) && run(r4).hears(r4)
            &&& !(entry matches Some(Value::Address(_))) ==> {
                &&& run(r2).at(r2.len()) == Step::<Result<i128, Error>>::Trap(
                    Fault::MissingEntry(DataKey::TokenIn),
                )
                &&& run(r3).at(r3.len()) == Step::<Result<i128, Error>>::Trap(
                    Fault::MissingEntry(DataKey::TokenOut),
                )
            }
            &&& !(entry matches Some(Value::Rate(_))) ==> run(r4).at(r4.len()) == Step::<
                Result<i128, Error>,
            >::Trap(Fault::MissingEntry(DataKey::Rate))
        }),
{
}

/// A deposit, for any depositor, amount, token and pool: the depositor signs,
/// and the amount moves.
pub proof fn deposit_liquidity_dialogue(
    from: Address,
    amount_out: i128,
    token_out: Address,
    pool: Address,
)
    ensures
        ({
            let r = seq![
                Reply::Done,
                Reply::Entry(Some(Value::Address(token_out))),
                Reply::Address(pool),
                Reply::Done,
            ];
            let run = |n: int|
                runs::deposit_liquidity_run(
                    from,
                    amount_out,
                    runs::deposit_liquidity_facts(r.take(n)),
                );
            let says = |n: int| run(n).at(r.take(n).len());
            let takes = |n: int| run(n).hears(r.take(n));
            &&& takes(0) && says(0) == Step::<()>::Call(HostCall::RequireAuth { address: from })
            &&& takes(1) && says(1) == Step::<()>::Call(HostCall::Load { key: DataKey::TokenOut })
            &&& takes(2) && says(2) == Step::<()>::Call(HostCall::CurrentContract)
            &&& takes(3) && says(3) == Step::<()>::Call(
                HostCall::Transfer { token: token_out, from, to: pool, amount: amount_out },
            )
            &&& takes(4) && says(4) == Step::<()>::Return(())
        }),
{
}

/// A deposit traps where there is no token to deposit.
pub proof fn deposit_liquidity_misses_an_entry(
    from: Address,
    amount_out: i128,
    entry: Option<Value>,
)
    ensures
        ({
            let r = seq![Reply::Done, Reply::Entry(entry)];
            let run = runs::deposit_liquidity_run(
                from,
                amount_out,
                runs::deposit_liquidity_facts(r),
            );
            &&& run.hears(r)
            &&& !(entry matches Some(Value::Address(_))) ==> run.at(r.len()) == Step::<()>::Trap(
                Fault::MissingEntry(DataKey::TokenOut),
            )
        }),
{
}

/// A withdrawal, for any recipient, amount, admin, token, pool and liquidity: the
/// stored admin signs, and then only two things decide: whether the amount is
/// positive, and whether it is over the liquidity.
pub proof fn withdraw_liquidity_dialogue(
    to: Address,
    amount: i128,
    admin: Address,
    token_out: Address,
    pool: Address,
    liquidity: i128,
)
    ensures
        ({
            let r = seq![
                Reply::Entry(Some(Value::Address(admin))),
                Reply::Done,
                Reply::Entry(Some(Value::Address(token_out))),
                Reply::Address(pool),
                Reply::Balance(liquidity),
                Reply::Done,
            ];
            let run = |n: int|
                runs::withdraw_liquidity_run(
                    to,
                    amount,
                    runs::withdraw_liquidity_facts(r.take(n)),
                );
            let says = |n: int| run(n).at(r.take(n).len());
            let takes = |n: int| run(n).hears(r.take(n));
            &&& takes(0) && says(0) == Step::<Result<(), Error>>::Call(
                HostCall::Load { key: DataKey::Admin },
            )
            &&& takes(1) && says(1) == Step::<Result<(), Error>>::Call(
                HostCall::RequireAuth { address: admin },
            )
            &&& takes(2)
            &&& amount <= 0 ==> says(2) == Step::<Result<(), Error>>::Return(
                Err(Error::InvalidAmount),
            )
            &&& amount > 0 ==> says(2) == Step::<Result<(), Error>>::Call(
                HostCall::Load { key: DataKey::TokenOut },
            )
            &&& amount > 0 ==> takes(3) && says(3) == Step::<Result<(), Error>>::Call(
                HostCall::CurrentContract,
            )
            &&& amount > 0 ==> takes(4) && says(4) == Step::<Result<(), Error>>::Call(
                HostCall::Balance { token: token_out, holder: pool },
            )
            &&& amount > 0 ==> takes(5)
            &&& amount > 0 && amount > liquidity ==> says(5) == Step::<Result<(), Error>>::Return(
                Err(Error::InsufficientLiquidity),
            )
            &&& 0 < amount <= liquidity ==> says(5) == Step::<Result<(), Error>>::Call(
                HostCall::Transfer { token: token_out, from: pool, to, amount },
            )
            &&& 0 < amount <= liquidity ==> takes(6) && says(6) == Step::<
                Result<(), Error>,
            >::Return(Ok(()))
        }),
{
}

/// A withdrawal traps at the first entry that is not there or does not hold what
/// it should.
pub proof fn withdraw_liquidity_misses_an_entry(
    to: Address,
    amount: i128,
    admin: Address,
    entry: Option<Value>,
)
    ensures
        ({
            let odd = Reply::Entry(entry);
            let run = |r: Seq<Reply>|
                runs::withdraw_liquidity_run(to, amount, runs::withdraw_liquidity_facts(r));
            let r1 = seq![odd];
            let r3 = seq![Reply::Entry(Some(Value::Address(admin))), Reply::Done, odd];
            &&& run(r1).hears(r1)
            &&& amount > 0 ==> run(r3).hears(r3)
            &&& !(entry matches Some(Value::Address(_))) ==> {
                &&& run(r1).at(r1.len()) == Step::<Result<(), Error>>::Trap(
                    Fault::MissingEntry(DataKey::Admin),
                )
                &&& amount > 0 ==> run(r3).at(r3.len()) == Step::<Result<(), Error>>::Trap(
                    Fault::MissingEntry(DataKey::TokenOut),
                )
            }
        }),
{
}

/// An upgrade, for any named and stored admins and code: naming anybody else is
/// refused at once; the stored admin signs, and the code is replaced.
pub proof fn upgrade_dialogue(admin: Address, new_wasm_hash: Bytes32, current_admin: Address)
    ensures
        ({
            let r = seq![
                Reply::Entry(Some(Value::Address(current_admin))),
                Reply::Done,
                Reply::Done,
            ];
            let run = |n: int|
                runs::upgrade_run(admin, new_wasm_hash, runs::upgrade_facts(r.take(n)));
            let says = |n: int| run(n).at(r.take(n).len());
            let takes = |n: int| run(n).hears(r.take(n));
            &&& takes(0) && says(0) == Step::<Result<(), Error>>::Call(
                HostCall::Load { key: DataKey::Admin },
            )
            &&& takes(1)
            &&& admin != current_admin ==> says(1) == Step::<Result<(), Error>>::Return(
                Err(Error::NotAdmin),
            )
            &&& admin == current_admin ==> {
                &&& says(1) == Step::<Result<(), Error>>::Call(
                    HostCall::RequireAuth { address: admin },
                )
                &&& takes(2) && says(2) == Step::<Result<(), Error>>::Call(
                    HostCall::UpdateWasm { hash: new_wasm_hash },
                )
                &&& takes(3) && says(3) == Step::<Result<(), Error>>::Return(Ok(()))
            }
        }),
{
}

/// An upgrade traps where there is no admin.
pub proof fn upgrade_misses_an_entry(admin: Address, new_wasm_hash: Bytes32, entry: Option<Value>)
    ensures
        ({
            let r = seq![Reply::Entry(entry)];
            let run = runs::upgrade_run(admin, new_wasm_hash, runs::upgrade_facts(r));
            &&& run.hears(r)
            &&& !(entry matches Some(Value::Address(_))) ==> run.at(r.len()) == Step::<
                Result<(), Error>,
            >::Trap(Fault::MissingEntry(DataKey::Admin))
        }),
{
}

/// Configuring, for any arguments: only one thing decides, whether there is an
/// admin entry. Where there is none, each argument is written under its key.
pub proof fn set_config_dialogue(
    admin: Address,
    token_in: Address,
    token_out: Address,
    rate_bps: u32,
    found: bool,
)
    ensures
        ({
            let r = seq![
                Reply::Found(found),
                Reply::Done,
                Reply::Done,
                Reply::Done,
                Reply::Done,
            ];
            let run = |n: int|
                runs::set_config_run(
                    admin,
                    token_in,
                    token_out,
                    rate_bps,
                    runs::set_config_facts(r.take(n)),
                );
            let says = |n: int| run(n).at(r.take(n).len());
            let takes = |n: int| run(n).hears(r.take(n));
            &&& takes(0) && says(0) == Step::<()>::Call(HostCall::Has { key: DataKey::Admin })
            &&& takes(1)
            &&& found ==> says(1) == Step::<()>::Trap(Fault::AlreadyInitialized)
            &&& !found ==> {
                &&& says(1) == Step::<()>::Call(
                    HostCall::Store { key: DataKey::Admin, value: Value::Address(admin) },
                )
                &&& takes(2) && says(2) == Step::<()>::Call(
                    HostCall::Store { key: DataKey::TokenIn, value: Value::Address(token_in) },
                )
                &&& takes(3) && says(3) == Step::<()>::Call(
                    HostCall::Store { key: DataKey::TokenOut, value: Value::Address(token_out) },
                )
                &&& takes(4) && says(4) == Step::<()>::Call(
                    HostCall::Store { key: DataKey::Rate, value: Value::Rate(rate_bps) },
                )
                &&& takes(5) && says(5) == Step::<()>::Return(())
            }
        }),
{
}

/// Initializing, for any arguments and any USDC contract: the admin-to-be signs,
/// and then only one thing decides, whether there is an admin entry. Where there
/// is none, each argument and the network's USDC is written under its key.
pub proof fn initialize_dialogue(
    admin: Address,
    token_in: Address,
    rate_bps: u32,
    usdc: Address,
    found: bool,
)
    ensures
        ({
            let r = seq![
                Reply::Address(usdc),
                Reply::Done,
                Reply::Found(found),
                Reply::Done,
                Reply::Done,
                Reply::Done,
                Reply::Done,
            ];
            let run = |n: int|
                runs::initialize_run(
                    admin,
                    token_in,
                    rate_bps,
                    runs::initialize_facts(r.take(n)),
                );
            let says = |n: int| run(n).at(r.take(n).len());
            let takes = |n: int| run(n).hears(r.take(n));
            &&& takes(0) && says(0) == Step::<()>::Call(HostCall::NetworkUsdc)
            &&& takes(1) && says(1) == Step::<()>::Call(HostCall::RequireAuth { address: admin })
            &&& takes(2) && says(2) == Step::<()>::Call(HostCall::Has { key: DataKey::Admin })
            &&& takes(3)
            &&& found ==> says(3) == Step::<()>::Trap(Fault::AlreadyInitialized)
            &&& !found ==> {
                &&& says(3) == Step::<()>::Call(
                    HostCall::Store { key: DataKey::Admin, value: Value::Address(admin) },
                )
                &&& takes(4) && says(4) == Step::<()>::Call(
                    HostCall::Store { key: DataKey::TokenIn, value: Value::Address(token_in) },
                )
                &&& takes(5) && says(5) == Step::<()>::Call(
                    HostCall::Store { key: DataKey::TokenOut, value: Value::Address(usdc) },
                )
                &&& takes(6) && says(6) == Step::<()>::Call(
                    HostCall::Store { key: DataKey::Rate, value: Value::Rate(rate_bps) },
                )
                &&& takes(7) && says(7) == Step::<()>::Return(())
            }
        }),
{
}

} // verus!
