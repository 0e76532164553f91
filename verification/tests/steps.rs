//! The pool's decisions, one reply at a time.

use mock_amm::address::{Address, Bytes32};
use mock_amm::error::{Error, Fault};
use mock_amm::host::{HostCall, Reply, Step};
use mock_amm::pool::MockAmm;
use mock_amm::pricing::{quote, PAR_RATE};
use mock_amm::storage::{DataKey, Value};
use mock_amm::world::CALL_LIMIT;

fn account(lo: u128) -> Address {
    Address::Account(Bytes32 { hi: 0, lo })
}

fn contract(lo: u128) -> Address {
    Address::Contract(Bytes32 { hi: 0, lo })
}

fn entry(address: Address) -> Reply {
    Reply::Entry(Some(Value::Address(address)))
}

fn rate(rate: u32) -> Reply {
    Reply::Entry(Some(Value::Rate(rate)))
}

#[test]
fn a_swap_step_by_step() {
    let (trader, wpi, usdc, pool) = (account(1), contract(2), contract(3), contract(4));
    let replies = [
        Reply::Done,
        entry(wpi),
        entry(usdc),
        rate(1_500_000),
        Reply::Address(pool),
        Reply::Balance(15),
        Reply::Done,
        Reply::Done,
    ];
    let calls = [
        HostCall::RequireAuth { address: trader },
        HostCall::Load { key: DataKey::TokenIn },
        HostCall::Load { key: DataKey::TokenOut },
        HostCall::Load { key: DataKey::Rate },
        HostCall::CurrentContract,
        HostCall::Balance { token: usdc, holder: pool },
        HostCall::Transfer { token: wpi, from: trader, to: pool, amount: 10 },
        HostCall::Transfer { token: usdc, from: pool, to: trader, amount: 15 },
    ];
    assert_eq!(calls.len(), CALL_LIMIT);
    for i in 0..calls.len() {
        assert_eq!(MockAmm::swap(trader, 10, 15, &replies[..i]), Step::Call(calls[i]));
    }
    assert_eq!(MockAmm::swap(trader, 10, 15, &replies), Step::Return(Ok(15)));
}

#[test]
fn a_swap_is_refused_for_slippage_before_the_pool_is_asked_what_it_has() {
    let replies = [Reply::Done, entry(contract(2)), entry(contract(3)), rate(PAR_RATE)];
    assert_eq!(
        MockAmm::swap(account(1), 10, 11, &replies),
        Step::Return(Err(Error::SlippageExceeded))
    );
    assert_eq!(
        MockAmm::swap(account(1), 10, 10, &replies),
        Step::Call(HostCall::CurrentContract)
    );
}

#[test]
fn a_swap_is_refused_one_unit_over_the_liquidity() {
    let mut replies = vec![
        Reply::Done,
        entry(contract(2)),
        entry(contract(3)),
        rate(PAR_RATE),
        Reply::Address(contract(4)),
        Reply::Balance(9),
    ];
    assert_eq!(
        MockAmm::swap(account(1), 10, 10, &replies),
        Step::Return(Err(Error::InsufficientLiquidity))
    );
    replies[5] = Reply::Balance(10);
    assert_eq!(
        MockAmm::swap(account(1), 10, 10, &replies),
        Step::Call(HostCall::Transfer {
            token: contract(2),
            from: account(1),
            to: contract(4),
            amount: 10,
        })
    );
}

#[test]
fn a_swap_traps_where_an_entry_is_missing_or_of_another_type() {
    let trader = account(1);
    let missing = |key: DataKey| Step::Trap(Fault::MissingEntry(key));
    assert_eq!(
        MockAmm::swap(trader, 1, 1, &[Reply::Done, Reply::Entry(None)]),
        missing(DataKey::TokenIn)
    );
    assert_eq!(
        MockAmm::swap(trader, 1, 1, &[Reply::Done, rate(5)]),
        missing(DataKey::TokenIn)
    );
    assert_eq!(
        MockAmm::swap(
            trader,
            1,
            1,
            &[Reply::Done, entry(contract(2)), Reply::Entry(None)]
        ),
        missing(DataKey::TokenOut)
    );
    assert_eq!(
        MockAmm::swap(
            trader,
            1,
            1,
            &[Reply::Done, entry(contract(2)), entry(contract(3)), entry(contract(4))]
        ),
        missing(DataKey::Rate)
    );
}

#[test]
fn a_swap_traps_where_the_price_overflows() {
    let replies = [Reply::Done, entry(contract(2)), entry(contract(3)), rate(2)];
    assert_eq!(
        MockAmm::swap(account(1), i128::MAX, 0, &replies),
        Step::Trap(Fault::Overflow)
    );
    assert_eq!(
        MockAmm::swap(account(1), i128::MAX / 2, 0, &replies),
        Step::Call(HostCall::CurrentContract)
    );
}

#[test]
fn a_deposit_step_by_step() {
    let (from, usdc, pool) = (account(1), contract(3), contract(4));
    let replies = [Reply::Done, entry(usdc), Reply::Address(pool), Reply::Done];
    let calls = [
        HostCall::RequireAuth { address: from },
        HostCall::Load { key: DataKey::TokenOut },
        HostCall::CurrentContract,
        HostCall::Transfer { token: usdc, from, to: pool, amount: -5 },
    ];
    for i in 0..calls.len() {
        assert_eq!(
            MockAmm::deposit_liquidity(from, -5, &replies[..i]),
            Step::Call(calls[i])
        );
    }
    assert_eq!(MockAmm::deposit_liquidity(from, -5, &replies), Step::Return(()));
    assert_eq!(
        MockAmm::deposit_liquidity(from, 5, &[Reply::Done, Reply::Entry(None)]),
        Step::Trap(Fault::MissingEntry(DataKey::TokenOut))
    );
}

#[test]
fn a_withdrawal_step_by_step() {
    let (admin, to, usdc, pool) = (account(1), account(2), contract(3), contract(4));
    let replies = [
        entry(admin),
        Reply::Done,
        entry(usdc),
        Reply::Address(pool),
        Reply::Balance(25),
        Reply::Done,
    ];
    let calls = [
        HostCall::Load { key: DataKey::Admin },
        HostCall::RequireAuth { address: admin },
        HostCall::Load { key: DataKey::TokenOut },
        HostCall::CurrentContract,
        HostCall::Balance { token: usdc, holder: pool },
        HostCall::Transfer { token: usdc, from: pool, to, amount: 25 },
    ];
    for i in 0..calls.len() {
        assert_eq!(
            MockAmm::withdraw_liquidity(to, 25, &replies[..i]),
            Step::Call(calls[i])
        );
    }
    assert_eq!(MockAmm::withdraw_liquidity(to, 25, &replies), Step::Return(Ok(())));
}

#[test]
fn a_withdrawal_is_refused_only_once_the_admin_has_signed() {
    let (admin, to) = (account(1), account(2));
    assert_eq!(
        MockAmm::withdraw_liquidity(to, 0, &[entry(admin)]),
        Step::Call(HostCall::RequireAuth { address: admin })
    );
    assert_eq!(
        MockAmm::withdraw_liquidity(to, 0, &[entry(admin), Reply::Done]),
        Step::Return(Err(Error::InvalidAmount))
    );
    assert_eq!(
        MockAmm::withdraw_liquidity(
            to,
            26,
            &[
                entry(admin),
                Reply::Done,
                entry(contract(3)),
                Reply::Address(contract(4)),
                Reply::Balance(25),
            ]
        ),
        Step::Return(Err(Error::InsufficientLiquidity))
    );
    assert_eq!(
        MockAmm::withdraw_liquidity(to, 1, &[Reply::Entry(None)]),
        Step::Trap(Fault::MissingEntry(DataKey::Admin))
    );
    assert_eq!(
        MockAmm::withdraw_liquidity(to, 1, &[entry(admin), Reply::Done, Reply::Entry(None)]),
        Step::Trap(Fault::MissingEntry(DataKey::TokenOut))
    );
}

#[test]
fn an_upgrade_step_by_step() {
    let admin = account(1);
    let hash = Bytes32 { hi: 8, lo: 9 };
    let replies = [entry(admin), Reply::Done, Reply::Done];
    let calls = [
        HostCall::Load { key: DataKey::Admin },
        HostCall::RequireAuth { address: admin },
        HostCall::UpdateWasm { hash },
    ];
    for i in 0..calls.len() {
        assert_eq!(MockAmm::upgrade(admin, hash, &replies[..i]), Step::Call(calls[i]));
    }
    assert_eq!(MockAmm::upgrade(admin, hash, &replies), Step::Return(Ok(())));
}

#[test]
fn an_upgrade_in_anothers_name_is_refused() {
    let hash = Bytes32 { hi: 8, lo: 9 };
    assert_eq!(
        MockAmm::upgrade(account(1), hash, &[entry(account(2))]),
        Step::Return(Err(Error::NotAdmin))
    );
    assert_eq!(
        MockAmm::upgrade(account(1), hash, &[entry(contract(1))]),
        Step::Return(Err(Error::NotAdmin))
    );
    assert_eq!(
        MockAmm::upgrade(account(1), hash, &[Reply::Entry(None)]),
        Step::Trap(Fault::MissingEntry(DataKey::Admin))
    );
}

#[test]
fn an_initialization_step_by_step() {
    let (admin, wpi, usdc) = (account(1), contract(2), contract(3));
    let replies = [
        Reply::Address(usdc),
        Reply::Done,
        Reply::Found(false),
        Reply::Done,
        Reply::Done,
        Reply::Done,
        Reply::Done,
    ];
    let calls = [
        HostCall::NetworkUsdc,
        HostCall::RequireAuth { address: admin },
        HostCall::Has { key: DataKey::Admin },
        HostCall::Store { key: DataKey::Admin, value: Value::Address(admin) },
        HostCall::Store { key: DataKey::TokenIn, value: Value::Address(wpi) },
        HostCall::Store { key: DataKey::TokenOut, value: Value::Address(usdc) },
        HostCall::Store { key: DataKey::Rate, value: Value::Rate(5) },
    ];
    for i in 0..calls.len() {
        assert_eq!(MockAmm::initialize(admin, wpi, 5, &replies[..i]), Step::Call(calls[i]));
    }
    assert_eq!(MockAmm::initialize(admin, wpi, 5, &replies), Step::Return(()));
}

#[test]
fn a_second_initialization_traps() {
    let replies = [Reply::Address(contract(3)), Reply::Done, Reply::Found(true)];
    assert_eq!(
        MockAmm::initialize(account(1), contract(2), 5, &replies),
        Step::Trap(Fault::AlreadyInitialized)
    );
    assert_eq!(
        MockAmm::set_config(account(1), contract(2), contract(3), 5, &[Reply::Found(true)]),
        Step::Trap(Fault::AlreadyInitialized)
    );
}

#[test]
fn quotes_round_toward_zero() {
    assert_eq!(quote(40, PAR_RATE), Some(40));
    assert_eq!(quote(-40, PAR_RATE), Some(-40));
    assert_eq!(quote(3, 500_000), Some(1));
    assert_eq!(quote(-3, 500_000), Some(-1));
    assert_eq!(quote(7, 0), Some(0));
    assert_eq!(quote(31_415_926, 2_500_000), Some(78_539_815));
    assert_eq!(quote(i128::MAX, 1), Some(i128::MAX / 1_000_000));
    assert_eq!(quote(i128::MAX, 2), None);
    assert_eq!(quote(i128::MIN, 1), Some(i128::MIN / 1_000_000));
    assert_eq!(quote(i128::MIN, 2), None);
}

#[test]
fn splitting_a_swap_loses_at_most_one_unit() {
    assert_eq!(quote(1, 500_000), Some(0));
    assert_eq!(quote(2, 500_000), Some(1));
    assert_eq!(quote(5, 300_000), Some(1));
    assert_eq!(quote(10, 300_000), Some(3));
}

#[test]
fn errors_have_their_numbers() {
    assert_eq!(Error::NotAdmin.code(), 1);
    assert_eq!(Error::InsufficientLiquidity.code(), 2);
    assert_eq!(Error::SlippageExceeded.code(), 3);
    assert_eq!(Error::InvalidAmount.code(), 4);
}
