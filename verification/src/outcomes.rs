//! What each invocation does to a ledger, said in one go.

use vstd::prelude::*;

use crate::address::{Address, Bytes32};
use crate::error::Error;
use crate::host::{HostCall, Reply, Step};
use crate::pricing;
use crate::storage::{DataKey, Value};
use crate::world;
use crate::world::{Outcome, World};

verus! {

/// The ledger on which a swap has been carried out.
pub open spec fn exchanged(world: World, to: Address, amount_in: i128, amount_out: i128) -> World {
    world.transferred(world.token_in()->0, to, world.pool, amount_in).transferred(
        world.token_out()->0,
        world.pool,
        to,
        amount_out,
    )
}

/// Whether both tokens of a swap move what they are told to.
pub open spec fn can_exchange(
    world: World,
    to: Address,
    amount_in: i128,
    amount_out: i128,
) -> bool {
    &&& world.can_transfer(world.token_in()->0, to, world.pool, amount_in)
    &&& world.transferred(world.token_in()->0, to, world.pool, amount_in).can_transfer(
        world.token_out()->0,
        world.pool,
        to,
        amount_out,
    )
}

/// A swap traps unless the trader authorized it, the pool is set up, the price
/// can be worked out, the pool's liquidity can be told and both tokens move what
/// they are told to. It fails where the price is under the trader's limit, or
/// else over the pool's liquidity. Otherwise it moves `amount_in` one way and the quoted amount the other.
pub open spec fn swap_outcome(
    world: World,
    to: Address,
    amount_in: i128,
    min_amount_out: i128,
) -> Outcome<Result<i128, Error>> {
    let rate = world.rate()->0 as int;
    let amount_out = pricing::quoted(amount_in as int, rate) as i128;
    if !world.setting.signers.contains(to) || world.token_in() is None || world.token_out() is None
        || world.rate() is None || !pricing::quotable(amount_in as int, rate) {
        Outcome::Trapped
    } else if amount_out < min_amount_out {
        Outcome::Returned { world, value: Err(Error::SlippageExceeded) }
    } else if !world.can_tell(world.token_out()->0, world.pool) {
        Outcome::Trapped
    } else if world.liquidity() < amount_out {
        Outcome::Returned { world, value: Err(Error::InsufficientLiquidity) }
    } else if !can_exchange(world, to, amount_in, amount_out) {
        Outcome::Trapped
    } else {
        Outcome::Returned {
            world: exchanged(world, to, amount_in, amount_out),
            value: Ok(amount_out),
        }
    }
}

/// One call of an invocation.
proof fn play_call<T>(
    world: World,
    program: spec_fn(Seq<Reply>) -> Step<T>,
    replies: Seq<Reply>,
    limit: nat,
    call: HostCall,
)
    requires
        program(replies) == Step::<T>::Call(call),
        limit > 0,
    ensures
        world::play(world, program, replies, limit) == match world.respond(call) {
            None => Outcome::<T>::Trapped,
            Some((next, reply)) => world::play(
                next,
                program,
                replies.push(reply),
                (limit - 1) as nat,
            ),
        },
{
}

/// The amount paid out fits the type of amounts where the product does.
proof fn quoted_fits(amount_in: int, rate: int)
    requires
        pricing::quotable(amount_in, rate),
    ensures
        i128::MIN <= pricing::quoted(amount_in, rate) <= i128::MAX,
{
}

/// A swap has the outcome that `swap_outcome` gives.
pub proof fn swap_is(world: World, to: Address, amount_in: i128, min_amount_out: i128)
    ensures
        world::swap(world, to, amount_in, min_amount_out) == swap_outcome(
            world,
            to,
            amount_in,
            min_amount_out,
        ),
{
    let p = world::swap_program(to, amount_in, min_amount_out);
    let rate = world.rate()->0 as int;
    let r0 = Seq::<Reply>::empty();
    play_call(world, p, r0, 8, HostCall::RequireAuth { address: to });
    if world.setting.signers.contains(to) {
        let r1 = r0.push(Reply::Done);
        play_call(world, p, r1, 7, HostCall::Load { key: DataKey::TokenIn });
        let r2 = r1.push(Reply::Entry(world.entry(DataKey::TokenIn)));
        if world.token_in() is Some {
            play_call(world, p, r2, 6, HostCall::Load { key: DataKey::TokenOut });
            let r3 = r2.push(Reply::Entry(world.entry(DataKey::TokenOut)));
            if world.token_out() is Some {
                play_call(world, p, r3, 5, HostCall::Load { key: DataKey::Rate });
                let r4 = r3.push(Reply::Entry(world.entry(DataKey::Rate)));
                if world.rate() is Some && pricing::quotable(amount_in as int, rate) {
                    quoted_fits(amount_in as int, rate);
                    let amount_out = pricing::quoted(amount_in as int, rate) as i128;
                    if amount_out >= min_amount_out {
                        let token_in = world.token_in()->0;
                        let token_out = world.token_out()->0;
                        play_call(world, p, r4, 4, HostCall::CurrentContract);
                        let r5 = r4.push(Reply::Address(world.pool));
                        play_call(
                            world,
                            p,
                            r5,
                            3,
                            HostCall::Balance { token: token_out, holder: world.pool },
                        );
                        let r6 = r5.push(Reply::Balance(world.liquidity()));
                        if world.can_tell(token_out, world.pool) && world.liquidity()
                            >= amount_out {
                            play_call(
                                world,
                                p,
                                r6,
                                2,
                                HostCall::Transfer {
                                    token: token_in,
                                    from: to,
                                    to: world.pool,
                                    amount: amount_in,
                                },
                            );
                            let r7 = r6.push(Reply::Done);
                            let paid_in = world.transferred(token_in, to, world.pool, amount_in);
                            play_call(
                                paid_in,
                                p,
                                r7,
                                1,
                                HostCall::Transfer {
                                    token: token_out,
                                    from: world.pool,
                                    to,
                                    amount: amount_out,
                                },
                            );
                        }
                    }
                }
            }
        }
    }
}

/// A deposit traps unless the depositor authorized it, there is a token to
/// deposit and it moves the amount. Otherwise the amount is the pool's.
pub open spec fn deposit_liquidity_outcome(
    world: World,
    from: Address,
    amount_out: i128,
) -> Outcome<()> {
    let token_out = world.token_out()->0;
    if !world.setting.signers.contains(from) || world.token_out() is None || !world.can_transfer(
        token_out,
        from,
        world.pool,
        amount_out,
    ) {
        Outcome::Trapped
    } else {
        Outcome::Returned {
            world: world.transferred(token_out, from, world.pool, amount_out),
            value: (),
        }
    }
}

/// A deposit has the outcome that `deposit_liquidity_outcome` gives.
pub proof fn deposit_liquidity_is(world: World, from: Address, amount_out: i128)
    ensures
        world::deposit_liquidity(world, from, amount_out) == deposit_liquidity_outcome(
            world,
            from,
            amount_out,
        ),
{
    let p = world::deposit_liquidity_program(from, amount_out);
    let r0 = Seq::<Reply>::empty();
    play_call(world, p, r0, 8, HostCall::RequireAuth { address: from });
    if world.setting.signers.contains(from) {
        let r1 = r0.push(Reply::Done);
        play_call(world, p, r1, 7, HostCall::Load { key: DataKey::TokenOut });
        let r2 = r1.push(Reply::Entry(world.entry(DataKey::TokenOut)));
        if world.token_out() is Some {
            let token_out = world.token_out()->0;
            play_call(world, p, r2, 6, HostCall::CurrentContract);
            let r3 = r2.push(Reply::Address(world.pool));
            play_call(
                world,
                p,
                r3,
                5,
                HostCall::Transfer { token: token_out, from, to: world.pool, amount: amount_out },
            );
        }
    }
}

/// A withdrawal traps unless the stored admin authorized it. It fails where the
/// amount is not positive, or else over the pool's liquidity. Otherwise it pays
/// the amount out. It traps where the token does not tell the liquidity or does
/// not move the amount.
pub open spec fn withdraw_liquidity_outcome(
    world: World,
    to: Address,
    amount: i128,
) -> Outcome<Result<(), Error>> {
    let token_out = world.token_out()->0;
    if world.admin() is None || !world.setting.signers.contains(world.admin()->0) {
        Outcome::Trapped
    } else if amount <= 0 {
        Outcome::Returned { world, value: Err(Error::InvalidAmount) }
    } else if world.token_out() is None || !world.can_tell(token_out, world.pool) {
        Outcome::Trapped
    } else if world.liquidity() < amount {
        Outcome::Returned { world, value: Err(Error::InsufficientLiquidity) }
    } else if !world.can_transfer(token_out, world.pool, to, amount) {
        Outcome::Trapped
    } else {
        Outcome::Returned {
            world: world.transferred(token_out, world.pool, to, amount),
            value: Ok(()),
        }
    }
}

/// A withdrawal has the outcome that `withdraw_liquidity_outcome` gives.
pub proof fn withdraw_liquidity_is(world: World, to: Address, amount: i128)
    ensures
        world::withdraw_liquidity(world, to, amount) == withdraw_liquidity_outcome(
            world,
            to,
            amount,
        ),
{
    let p = world::withdraw_liquidity_program(to, amount);
    let r0 = Seq::<Reply>::empty();
    play_call(world, p, r0, 8, HostCall::Load { key: DataKey::Admin });
    if world.admin() is Some {
        let admin = world.admin()->0;
        let r1 = r0.push(Reply::Entry(world.entry(DataKey::Admin)));
        play_call(world, p, r1, 7, HostCall::RequireAuth { address: admin });
        if world.setting.signers.contains(admin) && amount > 0 {
            let r2 = r1.push(Reply::Done);
            play_call(world, p, r2, 6, HostCall::Load { key: DataKey::TokenOut });
            let r3 = r2.push(Reply::Entry(world.entry(DataKey::TokenOut)));
            if world.token_out() is Some {
                let token_out = world.token_out()->0;
                play_call(world, p, r3, 5, HostCall::CurrentContract);
                let r4 = r3.push(Reply::Address(world.pool));
                play_call(
                    world,
                    p,
                    r4,
                    4,
                    HostCall::Balance { token: token_out, holder: world.pool },
                );
                let r5 = r4.push(Reply::Balance(world.liquidity()));
                if world.can_tell(token_out, world.pool) && world.liquidity() >= amount {
                    play_call(
                        world,
                        p,
                        r5,
                        3,
                        HostCall::Transfer { token: token_out, from: world.pool, to, amount },
                    );
                }
            }
        }
    }
}

/// An upgrade fails where `admin` is not the stored admin, whoever authorized
/// it, and traps where the admin did not or where the new code has not been
/// uploaded. Otherwise the pool has the new code.
pub open spec fn upgrade_outcome(
    world: World,
    admin: Address,
    new_wasm_hash: Bytes32,
) -> Outcome<Result<(), Error>> {
    if world.admin() is None {
        Outcome::Trapped
    } else if world.admin() != Some(admin) {
        Outcome::Returned { world, value: Err(Error::NotAdmin) }
    } else if !world.setting.signers.contains(admin) || !world.setting.uploaded.contains(
        new_wasm_hash,
    ) {
        Outcome::Trapped
    } else {
        Outcome::Returned { world: World { code: new_wasm_hash, ..world }, value: Ok(()) }
    }
}

/// An upgrade has the outcome that `upgrade_outcome` gives.
pub proof fn upgrade_is(world: World, admin: Address, new_wasm_hash: Bytes32)
    ensures
        world::upgrade(world, admin, new_wasm_hash) == upgrade_outcome(
            world,
            admin,
            new_wasm_hash,
        ),
{
    let p = world::upgrade_program(admin, new_wasm_hash);
    let r0 = Seq::<Reply>::empty();
    play_call(world, p, r0, 8, HostCall::Load { key: DataKey::Admin });
    if world.admin() == Some(admin) {
        let r1 = r0.push(Reply::Entry(world.entry(DataKey::Admin)));
        play_call(world, p, r1, 7, HostCall::RequireAuth { address: admin });
        if world.setting.signers.contains(admin) {
            let r2 = r1.push(Reply::Done);
            play_call(world, p, r2, 6, HostCall::UpdateWasm { hash: new_wasm_hash });
        }
    }
}

/// The pool's storage once it is set up.
pub open spec fn configuration(
    entries: Map<DataKey, Value>,
    admin: Address,
    token_in: Address,
    token_out: Address,
    rate_bps: u32,
) -> Map<DataKey, Value> {
    entries.insert(DataKey::Admin, Value::Address(admin)).insert(
        DataKey::TokenIn,
        Value::Address(token_in),
    ).insert(DataKey::TokenOut, Value::Address(token_out)).insert(
        DataKey::Rate,
        Value::Rate(rate_bps),
    )
}

/// Configuring traps where there is an admin entry. Otherwise the pool is set up
/// with the arguments given.
pub open spec fn set_config_outcome(
    world: World,
    admin: Address,
    token_in: Address,
    token_out: Address,
    rate_bps: u32,
) -> Outcome<()> {
    if world.entries.contains_key(DataKey::Admin) {
        Outcome::Trapped
    } else {
        Outcome::Returned {
            world: World {
                entries: configuration(world.entries, admin, token_in, token_out, rate_bps),
                ..world
            },
            value: (),
        }
    }
}

/// Configuring has the outcome that `set_config_outcome` gives.
pub proof fn set_config_is(
    world: World,
    admin: Address,
    token_in: Address,
    token_out: Address,
    rate_bps: u32,
)
    ensures
        world::set_config(world, admin, token_in, token_out, rate_bps) == set_config_outcome(
            world,
            admin,
            token_in,
            token_out,
            rate_bps,
        ),
{
    let p = world::set_config_program(admin, token_in, token_out, rate_bps);
    let r0 = Seq::<Reply>::empty();
    play_call(world, p, r0, 8, HostCall::Has { key: DataKey::Admin });
    let r1 = r0.push(Reply::Found(world.entries.contains_key(DataKey::Admin)));
    if !world.entries.contains_key(DataKey::Admin) {
        let v0 = Value::Address(admin);
        let v1 = Value::Address(token_in);
        let v2 = Value::Address(token_out);
        let v3 = Value::Rate(rate_bps);
        let w1 = World { entries: world.entries.insert(DataKey::Admin, v0), ..world };
        let w2 = World { entries: w1.entries.insert(DataKey::TokenIn, v1), ..w1 };
        let w3 = World { entries: w2.entries.insert(DataKey::TokenOut, v2), ..w2 };
        let w4 = World { entries: w3.entries.insert(DataKey::Rate, v3), ..w3 };
        play_call(world, p, r1, 7, HostCall::Store { key: DataKey::Admin, value: v0 });
        let r2 = r1.push(Reply::Done);
        play_call(w1, p, r2, 6, HostCall::Store { key: DataKey::TokenIn, value: v1 });
        let r3 = r2.push(Reply::Done);
        play_call(w2, p, r3, 5, HostCall::Store { key: DataKey::TokenOut, value: v2 });
        let r4 = r3.push(Reply::Done);
        play_call(w3, p, r4, 4, HostCall::Store { key: DataKey::Rate, value: v3 });
        assert(world::play(w4, p, r4.push(Reply::Done), 3) == Outcome::Returned {
            world: w4,
            value: (),
        });
    }
}

/// An initialization traps unless the admin-to-be authorized it and there is no
/// admin yet. Otherwise the pool is set up to pay the network's USDC.
pub open spec fn initialize_outcome(
    world: World,
    admin: Address,
    token_in: Address,
    rate_bps: u32,
) -> Outcome<()> {
    if !world.setting.signers.contains(admin) || world.entries.contains_key(DataKey::Admin) {
        Outcome::Trapped
    } else {
        Outcome::Returned {
            world: World {
                entries: configuration(world.entries, admin, token_in, world.usdc, rate_bps),
                ..world
            },
            value: (),
        }
    }
}

/// An initialization has the outcome that `initialize_outcome` gives.
pub proof fn initialize_is(world: World, admin: Address, token_in: Address, rate_bps: u32)
    ensures
        world::initialize(world, admin, token_in, rate_bps) == initialize_outcome(
            world,
            admin,
            token_in,
            rate_bps,
        ),
{
    let p = world::initialize_program(admin, token_in, rate_bps);
    let r0 = Seq::<Reply>::empty();
    play_call(world, p, r0, 8, HostCall::NetworkUsdc);
    let r1 = r0.push(Reply::Address(world.usdc));
    play_call(world, p, r1, 7, HostCall::RequireAuth { address: admin });
    if world.setting.signers.contains(admin) {
        let r2 = r1.push(Reply::Done);
        play_call(world, p, r2, 6, HostCall::Has { key: DataKey::Admin });
        let r3 = r2.push(Reply::Found(world.entries.contains_key(DataKey::Admin)));
        if !world.entries.contains_key(DataKey::Admin) {
            let v0 = Value::Address(admin);
            let v1 = Value::Address(token_in);
            let v2 = Value::Address(world.usdc);
            let v3 = Value::Rate(rate_bps);
            let w1 = World { entries: world.entries.insert(DataKey::Admin, v0), ..world };
            let w2 = World { entries: w1.entries.insert(DataKey::TokenIn, v1), ..w1 };
            let w3 = World { entries: w2.entries.insert(DataKey::TokenOut, v2), ..w2 };
            let w4 = World { entries: w3.entries.insert(DataKey::Rate, v3), ..w3 };
            play_call(world, p, r3, 5, HostCall::Store { key: DataKey::Admin, value: v0 });
            let r4 = r3.push(Reply::Done);
            play_call(w1, p, r4, 4, HostCall::Store { key: DataKey::TokenIn, value: v1 });
            let r5 = r4.push(Reply::Done);
            play_call(w2, p, r5, 3, HostCall::Store { key: DataKey::TokenOut, value: v2 });
            let r6 = r5.push(Reply::Done);
            play_call(w3, p, r6, 2, HostCall::Store { key: DataKey::Rate, value: v3 });
            assert(world::play(w4, p, r6.push(Reply::Done), 1) == Outcome::Returned {
                world: w4,
                value: (),
            });
        }
    }
}

} // verus!
