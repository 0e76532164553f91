//! What holds of the pool as a whole.

use vstd::prelude::*;

use crate::address::{Address, Bytes32};
use crate::error::Error;
use crate::host::{HostCall, Reply, Run, Step};
use crate::outcomes;
use crate::pricing;
use crate::runs;
use crate::runs::Facts;
use crate::storage::{DataKey, Value};
use crate::world;
use crate::world::{Outcome, Setting, World};

verus! {

/// An invocation of the pool, with its arguments.
pub enum Invocation {
    SetConfig { admin: Address, token_in: Address, token_out: Address, rate_bps: u32 },
    Initialize { admin: Address, token_in: Address, rate_bps: u32 },
    Swap { to: Address, amount_in: i128, min_amount_out: i128 },
    DepositLiquidity { from: Address, amount_out: i128 },
    WithdrawLiquidity { to: Address, amount: i128 },
    Upgrade { admin: Address, new_wasm_hash: Bytes32 },
}

/// The ledger that an outcome leaves, where the invocation found `before`.
pub open spec fn left<T>(outcome: Outcome<T>, before: World) -> World {
    match outcome {
        Outcome::Returned { world, value: _ } => world,
        _ => before,
    }
}

/// The ledger after an invocation.
pub open spec fn after(world: World, invocation: Invocation) -> World {
    match invocation {
        Invocation::SetConfig { admin, token_in, token_out, rate_bps } => left(
            world::set_config(world, admin, token_in, token_out, rate_bps),
            world,
        ),
        Invocation::Initialize { admin, token_in, rate_bps } => left(
            world::initialize(world, admin, token_in, rate_bps),
            world,
        ),
        Invocation::Swap { to, amount_in, min_amount_out } => left(
            world::swap(world, to, amount_in, min_amount_out),
            world,
        ),
        Invocation::DepositLiquidity { from, amount_out } => left(
            world::deposit_liquidity(world, from, amount_out),
            world,
        ),
        Invocation::WithdrawLiquidity { to, amount } => left(
            world::withdraw_liquidity(world, to, amount),
            world,
        ),
        Invocation::Upgrade { admin, new_wasm_hash } => left(
            world::upgrade(world, admin, new_wasm_hash),
            world,
        ),
    }
}

/// The ledger after a series of invocations, each in its own setting.
pub open spec fn history(world: World, invocations: Seq<(Setting, Invocation)>) -> World
    decreases invocations.len(),
{
    if invocations.len() == 0 {
        world
    } else {
        let (setting, invocation) = invocations.last();
        after(history(world, invocations.drop_last()).under(setting), invocation)
    }
}

/// How much of a token some holders have between them.
pub open spec fn total(world: World, token: Address, holders: Seq<Address>) -> int
    decreases holders.len(),
{
    if holders.len() == 0 {
        0
    } else {
        total(world, token, holders.drop_last()) + (world.balance)(token, holders.last())
    }
}

/// An entry of a ledger is what its storage holds under the key, and nothing
/// where there is none or one of another kind; and a pool is set up where all
/// four are there.
pub proof fn entries_are_read_as_stored(world: World, address: Address, rate: u32)
    ensures
        world.admin() == Some(address) <==> world.entries.contains_key(DataKey::Admin)
            && world.entries[DataKey::Admin] == Value::Address(address),
        world.token_in() == Some(address) <==> world.entries.contains_key(DataKey::TokenIn)
            && world.entries[DataKey::TokenIn] == Value::Address(address),
        world.token_out() == Some(address) <==> world.entries.contains_key(DataKey::TokenOut)
            && world.entries[DataKey::TokenOut] == Value::Address(address),
        world.rate() == Some(rate) <==> world.entries.contains_key(DataKey::Rate)
            && world.entries[DataKey::Rate] == Value::Rate(rate),
        world.configured() <==> {
            &&& world.entries.contains_key(DataKey::Admin)
            &&& world.entries[DataKey::Admin] is Address
            &&& world.entries.contains_key(DataKey::TokenIn)
            &&& world.entries[DataKey::TokenIn] is Address
            &&& world.entries.contains_key(DataKey::TokenOut)
            &&& world.entries[DataKey::TokenOut] is Address
            &&& world.entries.contains_key(DataKey::Rate)
            &&& world.entries[DataKey::Rate] is Rate
        },
        world.token_out() == Some(address) ==> world.liquidity() == (world.balance)(
            address,
            world.pool,
        ),
{
}

/// A token moves any amount that is not negative, that the payer has and that
/// the payee can hold, unless it refuses to, whatever the amount; and then just
/// the payer and the payee have that much less and more of it, but for one who
/// issues it. A token tells what anybody holds, unless it refuses to.
pub proof fn tokens_move_what_they_are_told(
    world: World,
    token: Address,
    from: Address,
    to: Address,
    amount: i128,
    of: Address,
    holder: Address,
)
    ensures
        ({
            let payer_has = (world.issues)(token, from) || amount <= (world.balance)(token, from);
            let payee_can_hold = from == to || (world.issues)(token, to) || (world.balance)(
                token,
                to,
            ) + amount <= i128::MAX;
            let refused = (world.setting.refuses)(
                world.balance,
                HostCall::Transfer { token, from, to, amount },
            );
            let moved = world.transferred(token, from, to, amount);
            let before = (world.balance)(of, holder);
            let touched = of == token && from != to && !(world.issues)(token, holder);
            &&& world.can_transfer(token, from, to, amount) <==> 0 <= amount && payer_has
                && payee_can_hold && !refused
            &&& world.can_tell(of, holder) <==> !(world.setting.refuses)(
                world.balance,
                HostCall::Balance { token: of, holder },
            )
            &&& moved == World { balance: moved.balance, ..world }
            &&& world.can_transfer(token, from, to, amount) ==> (moved.balance)(of, holder) == before
                + (if touched && holder == to {
                amount as int
            } else {
                0
            }) - (if touched && holder == from {
                amount as int
            } else {
                0
            })
        }),
{
}

/// Whether nobody holds less than nothing of any token.
pub open spec fn solvent(world: World) -> bool {
    forall|token: Address, holder: Address| #[trigger] (world.balance)(token, holder) >= 0
}

/// Whether an invocation returns or traps within the pool's limit of calls.
pub open spec fn ends(world: World, invocation: Invocation) -> bool {
    match invocation {
        Invocation::SetConfig { admin, token_in, token_out, rate_bps } => !(world::set_config(
            world,
            admin,
            token_in,
            token_out,
            rate_bps,
        ) is Unfinished),
        Invocation::Initialize { admin, token_in, rate_bps } => !(world::initialize(
            world,
            admin,
            token_in,
            rate_bps,
        ) is Unfinished),
        Invocation::Swap { to, amount_in, min_amount_out } => !(world::swap(
            world,
            to,
            amount_in,
            min_amount_out,
        ) is Unfinished),
        Invocation::DepositLiquidity { from, amount_out } => !(world::deposit_liquidity(
            world,
            from,
            amount_out,
        ) is Unfinished),
        Invocation::WithdrawLiquidity { to, amount } => !(world::withdraw_liquidity(
            world,
            to,
            amount,
        ) is Unfinished),
        Invocation::Upgrade { admin, new_wasm_hash } => !(world::upgrade(
            world,
            admin,
            new_wasm_hash,
        ) is Unfinished),
    }
}

/// The outcome of an invocation is the one said in one go.
proof fn invocation_is(world: World, invocation: Invocation)
    ensures
        after(world, invocation) == match invocation {
            Invocation::SetConfig { admin, token_in, token_out, rate_bps } => left(
                outcomes::set_config_outcome(world, admin, token_in, token_out, rate_bps),
                world,
            ),
            Invocation::Initialize { admin, token_in, rate_bps } => left(
                outcomes::initialize_outcome(world, admin, token_in, rate_bps),
                world,
            ),
            Invocation::Swap { to, amount_in, min_amount_out } => left(
                outcomes::swap_outcome(world, to, amount_in, min_amount_out),
                world,
            ),
            Invocation::DepositLiquidity { from, amount_out } => left(
                outcomes::deposit_liquidity_outcome(world, from, amount_out),
                world,
            ),
            Invocation::WithdrawLiquidity { to, amount } => left(
                outcomes::withdraw_liquidity_outcome(world, to, amount),
                world,
            ),
            Invocation::Upgrade { admin, new_wasm_hash } => left(
                outcomes::upgrade_outcome(world, admin, new_wasm_hash),
                world,
            ),
        },
        ends(world, invocation),
{
    match invocation {
        Invocation::SetConfig { admin, token_in, token_out, rate_bps } => {
            outcomes::set_config_is(world, admin, token_in, token_out, rate_bps);
        },
        Invocation::Initialize { admin, token_in, rate_bps } => {
            outcomes::initialize_is(world, admin, token_in, rate_bps);
        },
        Invocation::Swap { to, amount_in, min_amount_out } => {
            outcomes::swap_is(world, to, amount_in, min_amount_out);
        },
        Invocation::DepositLiquidity { from, amount_out } => {
            outcomes::deposit_liquidity_is(world, from, amount_out);
        },
        Invocation::WithdrawLiquidity { to, amount } => {
            outcomes::withdraw_liquidity_is(world, to, amount);
        },
        Invocation::Upgrade { admin, new_wasm_hash } => {
            outcomes::upgrade_is(world, admin, new_wasm_hash);
        },
    }
}

/// Every invocation ends: it returns or traps within the pool's limit of calls.
pub proof fn every_invocation_ends(world: World, invocation: Invocation)
    ensures
        ends(world, invocation),
{
    invocation_is(world, invocation);
}

/// A swap that goes through pays exactly the quoted amount, which is no less
/// than the trader asked for and no more than the pool had. It moves the two
/// amounts and does nothing else: whatever the tokens and the trader, everyone
/// gains what the one transfer and the other bring them.
pub proof fn swap_pays_the_quote(world: World, to: Address, amount_in: i128, min_amount_out: i128)
    requires
        world::swap(world, to, amount_in, min_amount_out) matches Outcome::Returned {
            world: _,
            value: Ok(_),
        },
    ensures
        ({
            let after = world::swap(world, to, amount_in, min_amount_out)->world;
            let amount_out = world::swap(world, to, amount_in, min_amount_out)->value->Ok_0;
            let token_in = world.token_in()->0;
            let token_out = world.token_out()->0;
            &&& amount_out == pricing::quoted(amount_in as int, world.rate()->0 as int)
            &&& min_amount_out <= amount_out <= world.liquidity()
            &&& amount_in >= 0
            &&& after == world.transferred(token_in, to, world.pool, amount_in).transferred(
                token_out,
                world.pool,
                to,
                amount_out,
            )
            &&& forall|of: Address, holder: Address| #[trigger]
                (after.balance)(of, holder) == (world.balance)(of, holder) + world.gain(
                    token_in,
                    to,
                    world.pool,
                    amount_in,
                    of,
                    holder,
                ) + world.gain(token_out, world.pool, to, amount_out, of, holder)
        }),
{
    outcomes::swap_is(world, to, amount_in, min_amount_out);
    assert(pricing::quotable(amount_in as int, world.rate()->0 as int));
}

/// What a swap that the trader authorized is answered: one that pays less than
/// asked for is refused for that, whatever the pool holds; one that pays enough
/// but more than the pool holds is refused for that; and any other goes
/// through, where the tokens move the amounts. It traps where they do not, or do
/// not tell what the pool holds.
pub proof fn swaps_are_answered(world: World, to: Address, amount_in: i128, min_amount_out: i128)
    requires
        world.configured(),
        world.setting.signers.contains(to),
        i128::MIN <= amount_in * world.rate()->0 <= i128::MAX,
    ensures
        ({
            let answer = world::swap(world, to, amount_in, min_amount_out);
            let product = amount_in * world.rate()->0;
            let amount_out = if product >= 0 {
                product / 1_000_000
            } else {
                -((-product) / 1_000_000)
            };
            let token_in = world.token_in()->0;
            let token_out = world.token_out()->0;
            let slips = amount_out < min_amount_out;
            let told = world.can_tell(token_out, world.pool);
            let dry = told && amount_out > world.liquidity();
            let moves = told && world.can_transfer(token_in, to, world.pool, amount_in)
                && world.transferred(token_in, to, world.pool, amount_in).can_transfer(
                token_out,
                world.pool,
                to,
                amount_out as i128,
            );
            &&& answer is Returned && answer->value == Err::<i128, Error>(Error::SlippageExceeded)
                <==> slips
            &&& answer is Returned && answer->value == Err::<i128, Error>(
                Error::InsufficientLiquidity,
            ) <==> !slips && dry
            &&& answer is Returned && answer->value is Ok <==> !slips && !dry && moves
            &&& answer is Returned && answer->value is Ok ==> answer->value->Ok_0 == amount_out
            &&& answer is Trapped <==> !slips && !dry && !moves
        }),
{
    outcomes::swap_is(world, to, amount_in, min_amount_out);
}

/// A pool that is not ready, or not asked by whom it should be, traps: a swap or
/// a deposit without the signature of the one who pays, a withdrawal or an
/// upgrade without an admin, and whatever needs an entry that is not there. So
/// does a swap whose product of amount and rate does not fit.
pub proof fn unready_pools_trap(
    world: World,
    a: Address,
    amount: i128,
    limit: i128,
    hash: Bytes32,
)
    ensures
        !world.setting.signers.contains(a) || world.token_in() is None || world.token_out() is None
            || world.rate() is None || !(i128::MIN <= amount * world.rate()->0 <= i128::MAX)
            ==> world::swap(world, a, amount, limit) is Trapped,
        !world.setting.signers.contains(a) || world.token_out() is None
            ==> world::deposit_liquidity(world, a, amount) is Trapped,
        world.admin() is None || (amount > 0 && world.token_out() is None)
            ==> world::withdraw_liquidity(world, a, amount) is Trapped,
        world.admin() is None ==> world::upgrade(world, a, hash) is Trapped,
{
    outcomes::swap_is(world, a, amount, limit);
    outcomes::deposit_liquidity_is(world, a, amount);
    outcomes::withdraw_liquidity_is(world, a, amount);
    outcomes::upgrade_is(world, a, hash);
}

/// An invocation that fails with an error leaves the ledger as it was.
pub proof fn refusals_change_nothing(
    world: World,
    a: Address,
    amount: i128,
    limit: i128,
    hash: Bytes32,
)
    ensures
        world::swap(world, a, amount, limit) matches Outcome::Returned {
            world: after,
            value: Err(_),
        } ==> after == world,
        world::withdraw_liquidity(world, a, amount) matches Outcome::Returned {
            world: after,
            value: Err(_),
        } ==> after == world,
        world::upgrade(world, a, hash) matches Outcome::Returned {
            world: after,
            value: Err(_),
        } ==> after == world,
{
    outcomes::swap_is(world, a, amount, limit);
    outcomes::withdraw_liquidity_is(world, a, amount);
    outcomes::upgrade_is(world, a, hash);
}

/// Whoever is to be paid and however much: where the stored admin did not
/// authorize it, a withdrawal traps.
pub proof fn only_the_admin_withdraws(world: World, to: Address, amount: i128)
    requires
        world.admin() matches Some(admin) ==> !world.setting.signers.contains(admin),
    ensures
        world::withdraw_liquidity(world, to, amount) is Trapped,
{
    outcomes::withdraw_liquidity_is(world, to, amount);
}

/// What a withdrawal that the admin authorized is answered: an amount that is
/// not positive is invalid, one over the liquidity is not there, and any other
/// is paid, where the token moves it. It traps where the token does not, or does
/// not tell what the pool holds.
pub proof fn withdrawals_are_answered(world: World, to: Address, amount: i128)
    requires
        world.configured(),
        world.setting.signers.contains(world.admin()->0),
    ensures
        ({
            let answer = world::withdraw_liquidity(world, to, amount);
            let token_out = world.token_out()->0;
            let told = world.can_tell(token_out, world.pool);
            let dry = told && amount > world.liquidity();
            let moves = told && world.can_transfer(token_out, world.pool, to, amount);
            &&& answer is Returned && answer->value == Err::<(), Error>(Error::InvalidAmount)
                <==> amount <= 0
            &&& answer is Returned && answer->value == Err::<(), Error>(
                Error::InsufficientLiquidity,
            ) <==> amount > 0 && dry
            &&& answer is Returned && answer->value == Ok::<(), Error>(()) <==> amount > 0 && !dry
                && moves
            &&& answer is Trapped <==> amount > 0 && !dry && !moves
            &&& answer is Returned && answer->value == Ok::<(), Error>(()) ==> answer->world
                == world.transferred(token_out, world.pool, to, amount)
        }),
{
    outcomes::withdraw_liquidity_is(world, to, amount);
}

/// A deposit goes through where the depositor authorized it and the token moves
/// the amount, and then that amount is the pool's.
pub proof fn deposits_are_answered(world: World, from: Address, amount_out: i128)
    requires
        world.configured(),
    ensures
        ({
            let answer = world::deposit_liquidity(world, from, amount_out);
            let token_out = world.token_out()->0;
            &&& answer is Returned <==> world.setting.signers.contains(from) && world.can_transfer(
                token_out,
                from,
                world.pool,
                amount_out,
            )
            &&& answer is Returned ==> answer->world == world.transferred(
                token_out,
                from,
                world.pool,
                amount_out,
            )
            &&& answer is Trapped <==> !(answer is Returned)
            &&& answer is Returned && from != world.pool && !(world.issues)(token_out, world.pool)
                ==> answer->world.liquidity() == world.liquidity() + amount_out
        }),
{
    outcomes::deposit_liquidity_is(world, from, amount_out);
}

/// The ledger on which a deposit has been made.
pub open spec fn deposited(world: World, from: Address, amount: i128) -> World {
    world.transferred(world.token_out()->0, from, world.pool, amount)
}

/// Whether the token refuses a deposit for reasons of its own.
pub open spec fn deposit_refused(world: World, from: Address, amount: i128) -> bool {
    world.refuses_transfer(world.token_out()->0, from, world.pool, amount)
}

/// Deposits add up: where a token refuses neither, two deposits of one depositor
/// go through in either order, and leave everyone with the same in both, and the
/// same as one deposit of the sum.
pub proof fn deposits_add_up(world: World, from: Address, a: i128, b: i128)
    requires
        world.token_out() is Some,
        world.setting.signers.contains(from),
        0 <= a,
        0 <= b,
        a + b <= (world.balance)(world.token_out()->0, from),
        from == world.pool || world.liquidity() + a + b <= i128::MAX,
        !deposit_refused(world, from, a),
        !deposit_refused(world, from, b),
        !deposit_refused(world, from, (a + b) as i128),
        !deposit_refused(deposited(world, from, a), from, b),
        !deposit_refused(deposited(world, from, b), from, a),
    ensures
        ({
            let first_a = world::deposit_liquidity(world, from, a);
            let a_then_b = world::deposit_liquidity(first_a->world, from, b);
            let first_b = world::deposit_liquidity(world, from, b);
            let b_then_a = world::deposit_liquidity(first_b->world, from, a);
            let at_once = world::deposit_liquidity(world, from, (a + b) as i128);
            &&& first_a is Returned && a_then_b is Returned
            &&& first_b is Returned && b_then_a is Returned
            &&& at_once is Returned
            &&& a_then_b->world == b_then_a->world
            &&& a_then_b->world == at_once->world
        }),
{
    outcomes::deposit_liquidity_is(world, from, a);
    outcomes::deposit_liquidity_is(world, from, b);
    outcomes::deposit_liquidity_is(world, from, (a + b) as i128);
    outcomes::deposit_liquidity_is(deposited(world, from, a), from, b);
    outcomes::deposit_liquidity_is(deposited(world, from, b), from, a);
    let a_then_b = deposited(deposited(world, from, a), from, b);
    let b_then_a = deposited(deposited(world, from, b), from, a);
    let at_once = deposited(world, from, (a + b) as i128);
    assert(a_then_b.balance =~= b_then_a.balance);
    assert(a_then_b.balance =~= at_once.balance);
}

/// A withdrawal is the counterpart to a deposit: where a deposit went through,
/// the admin can pay the same amount back to the depositor, unless the token
/// refuses to, and then everyone holds what they held before. (A pool that
/// issued the token itself would not have gained the deposit.)
pub proof fn withdrawal_undoes_deposit(
    world: World,
    from: Address,
    amount: i128,
    setting: Setting,
)
    requires
        world::deposit_liquidity(world, from, amount) is Returned,
        amount > 0,
        world.admin() is Some,
        setting.signers.contains(world.admin()->0),
        world.liquidity() >= 0,
        !(world.issues)(world.token_out()->0, world.pool),
        ({
            let back = world::deposit_liquidity(world, from, amount)->world.under(setting);
            let token_out = world.token_out()->0;
            &&& back.can_tell(token_out, world.pool)
            &&& !back.refuses_transfer(token_out, world.pool, from, amount)
        }),
    ensures
        ({
            let deposited = world::deposit_liquidity(world, from, amount)->world;
            let answer = world::withdraw_liquidity(deposited.under(setting), from, amount);
            &&& answer is Returned
            &&& answer->value == Ok::<(), Error>(())
            &&& answer->world.same_pool(world)
            &&& forall|token: Address, holder: Address| #[trigger]
                (answer->world.balance)(token, holder) == (world.balance)(token, holder)
        }),
{
    outcomes::deposit_liquidity_is(world, from, amount);
    let deposited = world::deposit_liquidity(world, from, amount)->world;
    outcomes::withdraw_liquidity_is(deposited.under(setting), from, amount);
}

/// What a swap leaves of the pool's liquidity, the admin can recover to the
/// last unit, unless the token refuses to pay it.
pub proof fn the_remainder_is_recovered(
    world: World,
    trader: Address,
    amount_in: i128,
    min_amount_out: i128,
    to: Address,
    setting: Setting,
)
    requires
        world.admin() is Some,
        setting.signers.contains(world.admin()->0),
        world::swap(world, trader, amount_in, min_amount_out) matches Outcome::Returned {
            world: _,
            value: Ok(_),
        },
        to != world.pool,
        ({
            let swapped = world::swap(world, trader, amount_in, min_amount_out)->world;
            let token_out = world.token_out()->0;
            let rest = swapped.liquidity();
            &&& rest > 0
            &&& (world.issues)(token_out, to) || (swapped.balance)(token_out, to) + rest <= i128::MAX
            &&& !(world.issues)(token_out, world.pool)
            &&& swapped.under(setting).can_tell(token_out, world.pool)
            &&& !swapped.under(setting).refuses_transfer(token_out, world.pool, to, rest)
        }),
    ensures
        ({
            let swapped = world::swap(world, trader, amount_in, min_amount_out)->world;
            let answer = world::withdraw_liquidity(
                swapped.under(setting),
                to,
                swapped.liquidity(),
            );
            &&& answer is Returned
            &&& answer->value == Ok::<(), Error>(())
            &&& answer->world.liquidity() == 0
            &&& !(world.issues)(world.token_out()->0, to) ==> (answer->world.balance)(
                world.token_out()->0,
                to,
            ) == (swapped.balance)(world.token_out()->0, to) + swapped.liquidity()
        }),
{
    outcomes::swap_is(world, trader, amount_in, min_amount_out);
    let swapped = world::swap(world, trader, amount_in, min_amount_out)->world;
    assert(swapped.entries == world.entries);
    outcomes::withdraw_liquidity_is(swapped.under(setting), to, swapped.liquidity());
}

/// An initialization goes through exactly where the admin-to-be signed it and
/// there is no admin entry, at any rate and for any token. It then writes the
/// four entries and changes nothing else; everywhere else it traps.
pub proof fn initializations_are_answered(
    world: World,
    admin: Address,
    token_in: Address,
    rate_bps: u32,
)
    ensures
        ({
            let answer = world::initialize(world, admin, token_in, rate_bps);
            let free = world.setting.signers.contains(admin) && !world.entries.contains_key(
                DataKey::Admin,
            );
            &&& answer is Returned <==> free
            &&& answer is Trapped <==> !free
            &&& free ==> {
                let ready = answer->world;
                &&& ready.entries.dom() == set![
                    DataKey::Admin,
                    DataKey::TokenIn,
                    DataKey::TokenOut,
                    DataKey::Rate,
                ]
                &&& ready.entries[DataKey::Admin] == Value::Address(admin)
                &&& ready.entries[DataKey::TokenIn] == Value::Address(token_in)
                &&& ready.entries[DataKey::TokenOut] == Value::Address(world.usdc)
                &&& ready.entries[DataKey::Rate] == Value::Rate(rate_bps)
                &&& ready == World { entries: ready.entries, ..world }
            }
        }),
{
    outcomes::initialize_is(world, admin, token_in, rate_bps);
}

/// Configuring goes through exactly where there is no admin entry, with any
/// arguments. It then writes the four entries and changes nothing else;
/// everywhere else it traps.
pub proof fn configurations_are_answered(
    world: World,
    admin: Address,
    token_in: Address,
    token_out: Address,
    rate_bps: u32,
)
    ensures
        ({
            let answer = world::set_config(world, admin, token_in, token_out, rate_bps);
            let free = !world.entries.contains_key(DataKey::Admin);
            &&& answer is Returned <==> free
            &&& answer is Trapped <==> !free
            &&& free ==> {
                let ready = answer->world;
                &&& ready.entries.dom() == set![
                    DataKey::Admin,
                    DataKey::TokenIn,
                    DataKey::TokenOut,
                    DataKey::Rate,
                ]
                &&& ready.entries[DataKey::Admin] == Value::Address(admin)
                &&& ready.entries[DataKey::TokenIn] == Value::Address(token_in)
                &&& ready.entries[DataKey::TokenOut] == Value::Address(token_out)
                &&& ready.entries[DataKey::Rate] == Value::Rate(rate_bps)
                &&& ready == World { entries: ready.entries, ..world }
            }
        }),
{
    outcomes::set_config_is(world, admin, token_in, token_out, rate_bps);
}

/// A pool is initialized once: it is then set up with the arguments given and
/// the network's USDC, and neither a later initialization nor a configuration
/// goes through, whatever its arguments and whoever authorized it.
pub proof fn initialized_once(
    world: World,
    admin: Address,
    token_in: Address,
    rate_bps: u32,
    setting: Setting,
    other_admin: Address,
    other_token_in: Address,
    other_token_out: Address,
    other_rate_bps: u32,
)
    requires
        world::initialize(world, admin, token_in, rate_bps) is Returned,
    ensures
        ({
            let ready = world::initialize(world, admin, token_in, rate_bps)->world;
            &&& world.setting.signers.contains(admin)
            &&& ready.configured()
            &&& ready.admin() == Some(admin)
            &&& ready.token_in() == Some(token_in)
            &&& ready.token_out() == Some(world.usdc)
            &&& ready.rate() == Some(rate_bps)
            &&& ready.balance == world.balance
            &&& world::initialize(
                ready.under(setting),
                other_admin,
                other_token_in,
                other_rate_bps,
            ) is Trapped
            &&& world::set_config(
                ready.under(setting),
                other_admin,
                other_token_in,
                other_token_out,
                other_rate_bps,
            ) is Trapped
        }),
{
    outcomes::initialize_is(world, admin, token_in, rate_bps);
    let ready = world::initialize(world, admin, token_in, rate_bps)->world;
    outcomes::initialize_is(
        ready.under(setting),
        other_admin,
        other_token_in,
        other_rate_bps,
    );
    outcomes::set_config_is(
        ready.under(setting),
        other_admin,
        other_token_in,
        other_token_out,
        other_rate_bps,
    );
}

/// The pool's code changes only at an upgrade that names the stored admin, that
/// the admin authorized and whose code has been uploaded. Naming anybody else is
/// an error, whoever authorized it.
pub proof fn only_the_admin_upgrades(world: World, admin: Address, new_wasm_hash: Bytes32)
    requires
        world.admin() is Some,
    ensures
        ({
            let answer = world::upgrade(world, admin, new_wasm_hash);
            let allowed = world.setting.signers.contains(admin)
                && world.setting.uploaded.contains(new_wasm_hash);
            &&& world.admin() != Some(admin) <==> answer == Outcome::Returned {
                world,
                value: Err::<(), Error>(Error::NotAdmin),
            }
            &&& world.admin() == Some(admin) && !allowed <==> answer is Trapped
            &&& world.admin() == Some(admin) && allowed <==> answer == Outcome::Returned {
                world: World { code: new_wasm_hash, ..world },
                value: Ok::<(), Error>(()),
            }
        }),
{
    outcomes::upgrade_is(world, admin, new_wasm_hash);
}

/// The code that a pool has after an invocation is the one that it had, unless
/// the stored admin authorized the invocation and the code has been uploaded.
pub proof fn code_is_the_admins(world: World, invocation: Invocation)
    requires
        after(world, invocation).code != world.code,
    ensures
        world.admin() matches Some(admin) && world.setting.signers.contains(admin),
        world.setting.uploaded.contains(after(world, invocation).code),
{
    invocation_is(world, invocation);
}

/// Nobody's holding shrinks unless they authorized the invocation, but for the
/// pool's own.
pub proof fn holders_consent(
    world: World,
    invocation: Invocation,
    token: Address,
    holder: Address,
)
    requires
        (after(world, invocation).balance)(token, holder) < (world.balance)(token, holder),
        holder != world.pool,
    ensures
        world.setting.signers.contains(holder),
{
    invocation_is(world, invocation);
}

/// What the pool holds of the token that it pays out shrinks only in a swap,
/// and then by no more than the quoted amount, or in a withdrawal that the
/// admin authorized.
pub proof fn liquidity_is_guarded(world: World, invocation: Invocation)
    requires
        world.configured(),
        after(world, invocation).liquidity() < world.liquidity(),
    ensures
        match invocation {
            Invocation::Swap { to, amount_in, min_amount_out } => world.liquidity() - after(
                world,
                invocation,
            ).liquidity() <= pricing::quoted(amount_in as int, world.rate()->0 as int),
            Invocation::WithdrawLiquidity { to, amount } => world.setting.signers.contains(
                world.admin()->0,
            ) && world.liquidity() - after(world, invocation).liquidity() == amount,
            _ => false,
        },
{
    invocation_is(world, invocation);
}

/// A transfer changes what some holders have between them only by what goes to
/// or comes from outside of them.
proof fn transfer_total(
    world: World,
    token: Address,
    from: Address,
    to: Address,
    amount: i128,
    of: Address,
    holders: Seq<Address>,
)
    requires
        world.can_transfer(token, from, to, amount),
        holders.no_duplicates(),
        forall|i: int| 0 <= i < holders.len() ==> !(world.issues)(of, #[trigger] holders[i]),
    ensures
        total(world.transferred(token, from, to, amount), of, holders) == total(world, of, holders)
            + (if of == token && from != to && holders.contains(to) {
            amount as int
        } else {
            0
        }) - (if of == token && from != to && holders.contains(from) {
            amount as int
        } else {
            0
        }),
    decreases holders.len(),
{
    if holders.len() > 0 {
        let rest = holders.drop_last();
        assert(forall|i: int| 0 <= i < rest.len() ==> rest[i] == holders[i]);
        transfer_total(world, token, from, to, amount, of, rest);
        assert(rest.no_duplicates());
        assert forall|a: Address| holders.contains(a) <==> rest.contains(a) || a
            == holders.last() by {
            if holders.contains(a) {
                let i = choose|i: int| 0 <= i < holders.len() && holders[i] == a;
                if i < rest.len() {
                    assert(rest[i] == a);
                }
            }
            if rest.contains(a) {
                let i = choose|i: int| 0 <= i < rest.len() && rest[i] == a;
                assert(holders[i] == a);
            }
            assert(holders[holders.len() - 1] == holders.last());
        }
        assert(!rest.contains(holders.last()));
    }
}

/// Tokens are neither made nor lost: holders among whom are the pool and all
/// that have to do with an invocation, and who do not issue the token, have as
/// much of it between them after the invocation as before.
pub proof fn totals_are_kept(
    world: World,
    invocation: Invocation,
    token: Address,
    holders: Seq<Address>,
)
    requires
        holders.no_duplicates(),
        holders.contains(world.pool),
        forall|i: int| 0 <= i < holders.len() ==> !(world.issues)(token, #[trigger] holders[i]),
        invocation matches Invocation::Swap { to, .. } ==> holders.contains(to),
        invocation matches Invocation::DepositLiquidity { from, .. } ==> holders.contains(from),
        invocation matches Invocation::WithdrawLiquidity { to, .. } ==> holders.contains(to),
    ensures
        total(after(world, invocation), token, holders) == total(world, token, holders),
{
    invocation_is(world, invocation);
    let token_in = world.token_in()->0;
    let token_out = world.token_out()->0;
    match invocation {
        Invocation::Swap { to, amount_in, min_amount_out } => {
            let amount_out = pricing::quoted(
                amount_in as int,
                world.rate()->0 as int,
            ) as i128;
            if outcomes::can_exchange(world, to, amount_in, amount_out) {
                transfer_total(world, token_in, to, world.pool, amount_in, token, holders);
                transfer_total(
                    world.transferred(token_in, to, world.pool, amount_in),
                    token_out,
                    world.pool,
                    to,
                    amount_out,
                    token,
                    holders,
                );
            }
        },
        Invocation::DepositLiquidity { from, amount_out } => {
            if world.can_transfer(token_out, from, world.pool, amount_out) {
                transfer_total(world, token_out, from, world.pool, amount_out, token, holders);
            }
        },
        Invocation::WithdrawLiquidity { to, amount } => {
            if world.can_transfer(token_out, world.pool, to, amount) {
                transfer_total(world, token_out, world.pool, to, amount, token, holders);
            }
        },
        Invocation::SetConfig { admin, token_in, token_out, rate_bps } => {
            same_total(world, after(world, invocation), token, holders);
        },
        Invocation::Initialize { admin, token_in, rate_bps } => {
            same_total(world, after(world, invocation), token, holders);
        },
        Invocation::Upgrade { admin, new_wasm_hash } => {
            same_total(world, after(world, invocation), token, holders);
        },
    }
}

/// Equal holdings have equal totals.
proof fn same_total(world: World, other: World, token: Address, holders: Seq<Address>)
    requires
        world.balance == other.balance,
    ensures
        total(world, token, holders) == total(other, token, holders),
    decreases holders.len(),
{
    if holders.len() > 0 {
        same_total(world, other, token, holders.drop_last());
    }
}

/// What holds of every state that invocations lead to, whoever authorized them:
/// once set up, a pool stays set up the same; and where nobody held less than
/// nothing, nobody does.
pub proof fn every_state(world: World, invocations: Seq<(Setting, Invocation)>)
    ensures
        ({
            let reached = history(world, invocations);
            &&& reached.usdc == world.usdc
            &&& reached.pool == world.pool
            &&& reached.issues == world.issues
            &&& world.configured() ==> reached.configured() && reached.entries == world.entries
            &&& solvent(world) ==> solvent(reached)
        }),
    decreases invocations.len(),
{
    if invocations.len() > 0 {
        every_state(world, invocations.drop_last());
        let (setting, invocation) = invocations.last();
        invocation_is(history(world, invocations.drop_last()).under(setting), invocation);
    }
}

/// Whether an entry point takes these replies.
pub open spec fn takes(invocation: Invocation, replies: Seq<Reply>) -> bool {
    match invocation {
        Invocation::SetConfig { admin, token_in, token_out, rate_bps } => runs::set_config_run(
            admin,
            token_in,
            token_out,
            rate_bps,
            runs::set_config_facts(replies),
        ).hears(replies),
        Invocation::Initialize { admin, token_in, rate_bps } => runs::initialize_run(
            admin,
            token_in,
            rate_bps,
            runs::initialize_facts(replies),
        ).hears(replies),
        Invocation::Swap { to, amount_in, min_amount_out } => runs::swap_run(
            to,
            amount_in,
            min_amount_out,
            runs::swap_facts(replies),
        ).hears(replies),
        Invocation::DepositLiquidity { from, amount_out } => runs::deposit_liquidity_run(
            from,
            amount_out,
            runs::deposit_liquidity_facts(replies),
        ).hears(replies),
        Invocation::WithdrawLiquidity { to, amount } => runs::withdraw_liquidity_run(
            to,
            amount,
            runs::withdraw_liquidity_facts(replies),
        ).hears(replies),
        Invocation::Upgrade { admin, new_wasm_hash } => runs::upgrade_run(
            admin,
            new_wasm_hash,
            runs::upgrade_facts(replies),
        ).hears(replies),
    }
}

/// Whether an entry point puts `call` once it has these replies.
pub open spec fn calls(invocation: Invocation, replies: Seq<Reply>, call: HostCall) -> bool {
    match invocation {
        Invocation::SetConfig { admin, token_in, token_out, rate_bps } => world::set_config_program(
            admin,
            token_in,
            token_out,
            rate_bps,
        )(replies) == Step::<()>::Call(call),
        Invocation::Initialize { admin, token_in, rate_bps } => world::initialize_program(
            admin,
            token_in,
            rate_bps,
        )(replies) == Step::<()>::Call(call),
        Invocation::Swap { to, amount_in, min_amount_out } => world::swap_program(
            to,
            amount_in,
            min_amount_out,
        )(replies) == Step::<Result<i128, Error>>::Call(call),
        Invocation::DepositLiquidity { from, amount_out } => world::deposit_liquidity_program(
            from,
            amount_out,
        )(replies) == Step::<()>::Call(call),
        Invocation::WithdrawLiquidity { to, amount } => world::withdraw_liquidity_program(
            to,
            amount,
        )(replies) == Step::<Result<(), Error>>::Call(call),
        Invocation::Upgrade { admin, new_wasm_hash } => world::upgrade_program(
            admin,
            new_wasm_hash,
        )(replies) == Step::<Result<(), Error>>::Call(call),
    }
}

/// Whether a call changes anything.
pub open spec fn has_effect(call: HostCall) -> bool {
    call is Store || call is Transfer || call is UpdateWasm
}

/// Whether a run changes nothing before `address` has authorized it.
pub open spec fn authorized_first<T>(run: Run<T>, address: Address) -> bool {
    forall|i: int|
        0 <= i < run.calls.len() && has_effect(#[trigger] run.calls[i]) ==> run.calls.take(
            i,
        ).contains(HostCall::RequireAuth { address })
}

/// Whatever the host replies, no entry point changes anything before the one
/// that it answers to has authorized the invocation: the trader, the depositor,
/// the admin-to-be, or the stored admin. Configuring, which initializing asks
/// for the authorization of, is no entry point of its own.
pub proof fn authorization_comes_first(facts: Facts, invocation: Invocation)
    requires
        !(invocation is SetConfig),
    ensures
        match invocation {
            Invocation::SetConfig { .. } => false,
            Invocation::Initialize { admin, token_in, rate_bps } => authorized_first(
                runs::initialize_run(admin, token_in, rate_bps, facts),
                admin,
            ),
            Invocation::Swap { to, amount_in, min_amount_out } => authorized_first(
                runs::swap_run(to, amount_in, min_amount_out, facts),
                to,
            ),
            Invocation::DepositLiquidity { from, amount_out } => authorized_first(
                runs::deposit_liquidity_run(from, amount_out, facts),
                from,
            ),
            Invocation::WithdrawLiquidity { to, amount } => authorized_first(
                runs::withdraw_liquidity_run(to, amount, facts),
                facts.admin->0,
            ),
            Invocation::Upgrade { admin, new_wasm_hash } => authorized_first(
                runs::upgrade_run(admin, new_wasm_hash, facts),
                facts.admin->0,
            ),
        },
{
    match invocation {
        Invocation::SetConfig { .. } => {},
        Invocation::Initialize { admin, token_in, rate_bps } => {
            let run = runs::initialize_run(admin, token_in, rate_bps, facts);
            authorized_at(run, admin, 1);
        },
        Invocation::Swap { to, amount_in, min_amount_out } => {
            authorized_at(runs::swap_run(to, amount_in, min_amount_out, facts), to, 0);
        },
        Invocation::DepositLiquidity { from, amount_out } => {
            authorized_at(runs::deposit_liquidity_run(from, amount_out, facts), from, 0);
        },
        Invocation::WithdrawLiquidity { to, amount } => {
            if facts.admin is Some {
                authorized_at(
                    runs::withdraw_liquidity_run(to, amount, facts),
                    facts.admin->0,
                    1,
                );
            }
        },
        Invocation::Upgrade { admin, new_wasm_hash } => {
            if facts.admin == Some(admin) {
                authorized_at(runs::upgrade_run(admin, new_wasm_hash, facts), admin, 1);
            }
        },
    }
}

/// A run changes nothing before an authorization that comes before any change.
proof fn authorized_at<T>(run: Run<T>, address: Address, n: int)
    requires
        0 <= n < run.calls.len(),
        run.calls[n] == (HostCall::RequireAuth { address }),
        forall|i: int| 0 <= i <= n ==> !has_effect(#[trigger] run.calls[i]),
    ensures
        authorized_first(run, address),
{
    assert forall|i: int|
        0 <= i < run.calls.len() && has_effect(#[trigger] run.calls[i]) implies run.calls.take(
        i,
    ).contains(HostCall::RequireAuth { address }) by {
        assert(run.calls.take(i)[n] == run.calls[n]);
    }
}

/// An invocation can always be carried on: it starts without replies, and where
/// its next step is a call, a reply to that call makes replies that the entry
/// point takes.
pub proof fn invocations_carry_on(
    invocation: Invocation,
    replies: Seq<Reply>,
    call: HostCall,
    reply: Reply,
)
    requires
        reply.answers(call),
    ensures
        takes(invocation, seq![]),
        takes(invocation, replies) && calls(invocation, replies, call) ==> takes(
            invocation,
            replies.push(reply),
        ),
{
    assert(replies.push(reply).drop_last() == replies);
}

} // verus!
