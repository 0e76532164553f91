//! The pool on a real host, between two Stellar Asset Contracts.

use mock_amm::address::{Address, Bytes32};
use mock_amm::error::Error;
use mock_amm::host::{HostCall, Reply, Step};
use mock_amm::pool::MockAmm;
use mock_amm::storage::{DataKey, Value};
use soroban_sdk::address_payload::AddressPayload;
use soroban_sdk::testutils::{
    Address as _, ContractFunctionSet, EnvTestConfig, IssuerFlags, MockAuth, MockAuthInvoke,
    StellarAssetContract,
};
use soroban_sdk::{token, BytesN, Env, IntoVal, InvokeError, Symbol, TryFromVal, Val};

/// A host that leaves no files behind.
fn new_env() -> Env {
    let mut config = EnvTestConfig::default();
    config.capture_snapshot_at_drop = false;
    Env::new_with_config(config)
}

fn bytes_in(bytes: &BytesN<32>) -> Bytes32 {
    let bytes = bytes.to_array();
    let mut hi = [0; 16];
    let mut lo = [0; 16];
    hi.copy_from_slice(&bytes[..16]);
    lo.copy_from_slice(&bytes[16..]);
    Bytes32 {
        hi: u128::from_be_bytes(hi),
        lo: u128::from_be_bytes(lo),
    }
}

fn bytes_out(env: &Env, bytes: Bytes32) -> BytesN<32> {
    let mut array = [0; 32];
    array[..16].copy_from_slice(&bytes.hi.to_be_bytes());
    array[16..].copy_from_slice(&bytes.lo.to_be_bytes());
    BytesN::from_array(env, &array)
}

fn address_in(address: &soroban_sdk::Address) -> Address {
    match AddressPayload::from_address(address).unwrap() {
        AddressPayload::AccountIdPublicKeyEd25519(key) => Address::Account(bytes_in(&key)),
        AddressPayload::ContractIdHash(hash) => Address::Contract(bytes_in(&hash)),
    }
}

fn address_out(env: &Env, address: Address) -> soroban_sdk::Address {
    match address {
        Address::Account(key) => AddressPayload::AccountIdPublicKeyEd25519(bytes_out(env, key)),
        Address::Contract(hash) => AddressPayload::ContractIdHash(bytes_out(env, hash)),
    }
    .to_address(env)
}

fn entry_key(env: &Env, key: DataKey) -> (Symbol,) {
    let name = match key {
        DataKey::Admin => "Admin",
        DataKey::TokenIn => "TokenIn",
        DataKey::TokenOut => "TokenOut",
        DataKey::Rate => "Rate",
    };
    (Symbol::new(env, name),)
}

fn perform(env: &Env, call: HostCall) -> Reply {
    let instance = env.storage().instance();
    match call {
        HostCall::NetworkUsdc => Reply::Address(network_usdc()),
        HostCall::CurrentContract => Reply::Address(address_in(&env.current_contract_address())),
        HostCall::RequireAuth { address } => {
            address_out(env, address).require_auth();
            Reply::Done
        }
        HostCall::Has { key } => Reply::Found(instance.has(&entry_key(env, key))),
        HostCall::Load { key } => {
            let stored: Option<Val> = instance.get(&entry_key(env, key));
            Reply::Entry(stored.and_then(|val| match key {
                DataKey::Rate => u32::try_from_val(env, &val).ok().map(Value::Rate),
                _ => soroban_sdk::Address::try_from_val(env, &val)
                    .ok()
                    .map(|address| Value::Address(address_in(&address))),
            }))
        }
        HostCall::Store { key, value } => {
            match value {
                Value::Address(address) => {
                    instance.set(&entry_key(env, key), &address_out(env, address))
                }
                Value::Rate(rate) => instance.set(&entry_key(env, key), &rate),
            }
            Reply::Done
        }
        HostCall::Balance { token, holder } => {
            let client = token::Client::new(env, &address_out(env, token));
            Reply::Balance(client.balance(&address_out(env, holder)))
        }
        HostCall::Transfer {
            token,
            from,
            to,
            amount,
        } => {
            let client = token::Client::new(env, &address_out(env, token));
            client.transfer(
                &address_out(env, from),
                &address_out(env, to),
                &amount,
            );
            Reply::Done
        }
        HostCall::UpdateWasm { hash } => {
            env.deployer()
                .update_current_contract_wasm(bytes_out(env, hash));
            Reply::Done
        }
    }
}

fn run<T>(env: &Env, next: impl Fn(&[Reply]) -> Step<T>) -> T {
    let mut replies = Vec::new();
    loop {
        match next(&replies) {
            Step::Call(call) => replies.push(perform(env, call)),
            Step::Return(value) => return value,
            Step::Trap(fault) => panic!("{:?}", fault),
        }
    }
}

/// The pool as a contract of the host.
struct PoolContract;

fn answered<T: IntoVal<Env, Val>>(env: &Env, answer: Result<T, Error>) -> Option<Val> {
    Some(match answer {
        Ok(value) => value.into_val(env),
        Err(error) => soroban_sdk::Error::from_contract_error(error.code()).into_val(env),
    })
}

impl ContractFunctionSet for PoolContract {
    fn call(&self, func: &str, env: Env, args: &[Val]) -> Option<Val> {
        let address = |i: usize| {
            address_in(&soroban_sdk::Address::try_from_val(&env, &args[i]).unwrap())
        };
        let amount = |i: usize| i128::try_from_val(&env, &args[i]).unwrap();
        match func {
            "initialize" => {
                let rate_bps = u32::try_from_val(&env, &args[2]).unwrap();
                let (admin, token_in) = (address(0), address(1));
                run(&env, |replies| {
                    MockAmm::initialize(admin, token_in, rate_bps, replies)
                });
                Some(().into_val(&env))
            }
            "swap" => {
                let (to, amount_in, min_amount_out) = (address(0), amount(1), amount(2));
                let answer = run(&env, |replies| {
                    MockAmm::swap(to, amount_in, min_amount_out, replies)
                });
                answered(&env, answer)
            }
            "deposit_liquidity" => {
                let (from, amount_out) = (address(0), amount(1));
                run(&env, |replies| {
                    MockAmm::deposit_liquidity(from, amount_out, replies)
                });
                Some(().into_val(&env))
            }
            "withdraw_liquidity" => {
                let (to, amount) = (address(0), amount(1));
                let answer = run(&env, |replies| {
                    MockAmm::withdraw_liquidity(to, amount, replies)
                });
                answered(&env, answer)
            }
            "upgrade" => {
                let hash = bytes_in(&BytesN::<32>::try_from_val(&env, &args[1]).unwrap());
                let admin = address(0);
                let answer = run(&env, |replies| MockAmm::upgrade(admin, hash, replies));
                answered(&env, answer)
            }
            _ => None,
        }
    }
}

/// Invokes the pool from outside.
struct Amm<'a> {
    env: &'a Env,
    id: soroban_sdk::Address,
}

impl Amm<'_> {
    fn call<T: TryFromVal<Env, Val>>(&self, func: &str, args: soroban_sdk::Vec<Val>) -> T {
        self.env
            .invoke_contract(&self.id, &Symbol::new(self.env, func), args)
    }

    fn try_call<T: TryFromVal<Env, Val>>(
        &self,
        func: &str,
        args: soroban_sdk::Vec<Val>,
    ) -> Result<T, Result<Error, InvokeError>> {
        let answer = self.env.try_invoke_contract::<T, soroban_sdk::Error>(
            &self.id,
            &Symbol::new(self.env, func),
            args,
        );
        match answer {
            Ok(Ok(value)) => Ok(value),
            Ok(Err(_)) => panic!("a result of another type"),
            Err(Ok(error)) => {
                for known in [
                    Error::NotAdmin,
                    Error::InsufficientLiquidity,
                    Error::SlippageExceeded,
                    Error::InvalidAmount,
                ] {
                    if error == soroban_sdk::Error::from_contract_error(known.code()) {
                        return Err(Ok(known));
                    }
                }
                Err(Err(InvokeError::Abort))
            }
            Err(Err(error)) => Err(Err(error)),
        }
    }

    fn swap(&self, to: &soroban_sdk::Address, amount_in: &i128, min_amount_out: &i128) -> i128 {
        self.call("swap", (to, amount_in, min_amount_out).into_val(self.env))
    }

    fn try_swap(
        &self,
        to: &soroban_sdk::Address,
        amount_in: &i128,
        min_amount_out: &i128,
    ) -> Result<i128, Result<Error, InvokeError>> {
        self.try_call("swap", (to, amount_in, min_amount_out).into_val(self.env))
    }

    fn deposit_liquidity(&self, from: &soroban_sdk::Address, amount_out: &i128) {
        self.call("deposit_liquidity", (from, amount_out).into_val(self.env))
    }

    fn withdraw_liquidity(&self, to: &soroban_sdk::Address, amount: &i128) {
        self.call("withdraw_liquidity", (to, amount).into_val(self.env))
    }

    fn try_withdraw_liquidity(
        &self,
        to: &soroban_sdk::Address,
        amount: &i128,
    ) -> Result<(), Result<Error, InvokeError>> {
        self.try_call("withdraw_liquidity", (to, amount).into_val(self.env))
    }
}

struct Pool<'a> {
    admin: soroban_sdk::Address,
    trader: soroban_sdk::Address,
    amm_id: soroban_sdk::Address,
    amm: Amm<'a>,
    wpi: token::Client<'a>,
    usdc: token::Client<'a>,
    usdc_asset: StellarAssetContract,
}

/// Registers a 1:1 pool whose admin holds 100 USDC and whose trader holds
/// 100 wPi, with `token_out` wired to a locally registered SAC rather than
/// the network-resolved USDC address.
fn setup(env: &Env) -> Pool<'_> {
    setup_at(env, 1_000_000)
}

fn setup_at(env: &Env, rate_bps: u32) -> Pool<'_> {
    let admin = soroban_sdk::Address::generate(env);
    let trader = soroban_sdk::Address::generate(env);
    let wpi = env.register_stellar_asset_contract_v2(soroban_sdk::Address::generate(env));
    let usdc = env.register_stellar_asset_contract_v2(soroban_sdk::Address::generate(env));
    let amm_id = env.register(PoolContract, ());

    env.as_contract(&amm_id, || {
        run(env, |replies| {
            MockAmm::set_config(
                address_in(&admin),
                address_in(&wpi.address()),
                address_in(&usdc.address()),
                rate_bps,
                replies,
            )
        })
    });

    env.mock_all_auths();
    token::StellarAssetClient::new(env, &wpi.address()).mint(&trader, &100);
    token::StellarAssetClient::new(env, &usdc.address()).mint(&admin, &100);

    Pool {
        admin,
        trader,
        amm: Amm {
            env,
            id: amm_id.clone(),
        },
        wpi: token::Client::new(env, &wpi.address()),
        usdc: token::Client::new(env, &usdc.address()),
        usdc_asset: usdc,
        amm_id,
    }
}

/// A stand-in for the network's USDC contract.
fn network_usdc() -> Address {
    Address::Contract(Bytes32 { hi: 7, lo: 11 })
}

#[test]
fn swaps_against_registered_stellar_asset_contract() {
    let env = new_env();
    let pool = setup(&env);

    pool.amm.deposit_liquidity(&pool.admin, &100);
    assert_eq!(pool.amm.swap(&pool.trader, &40, &40), 40);

    assert_eq!(pool.wpi.balance(&pool.trader), 60);
    assert_eq!(pool.usdc.balance(&pool.trader), 40);
    assert_eq!(pool.usdc.balance(&pool.amm_id), 60);
}

#[test]
fn deposit_and_withdraw_liquidity_round_trip() {
    let env = new_env();
    let pool = setup(&env);

    pool.amm.deposit_liquidity(&pool.admin, &100);
    assert_eq!(pool.usdc.balance(&pool.amm_id), 100);
    assert_eq!(pool.usdc.balance(&pool.admin), 0);

    pool.amm.withdraw_liquidity(&pool.admin, &40);
    assert_eq!(pool.usdc.balance(&pool.amm_id), 60);
    assert_eq!(pool.usdc.balance(&pool.admin), 40);

    pool.amm.withdraw_liquidity(&pool.admin, &60);
    assert_eq!(pool.usdc.balance(&pool.amm_id), 0);
    assert_eq!(pool.usdc.balance(&pool.admin), 100);
}

#[test]
fn withdraw_liquidity_recovers_the_remainder_after_a_swap() {
    let env = new_env();
    let pool = setup(&env);
    pool.amm.deposit_liquidity(&pool.admin, &100);
    pool.amm.swap(&pool.trader, &40, &40);

    pool.amm.withdraw_liquidity(&pool.admin, &60);

    assert_eq!(pool.usdc.balance(&pool.amm_id), 0);
    assert_eq!(pool.usdc.balance(&pool.admin), 60);
}

#[test]
fn withdraw_liquidity_can_send_to_an_address_other_than_the_admin() {
    let env = new_env();
    let pool = setup(&env);
    let treasury = soroban_sdk::Address::generate(&env);
    pool.amm.deposit_liquidity(&pool.admin, &100);

    pool.amm.withdraw_liquidity(&treasury, &25);

    assert_eq!(pool.usdc.balance(&treasury), 25);
    assert_eq!(pool.usdc.balance(&pool.amm_id), 75);
}

#[test]
fn withdraw_liquidity_rejects_more_than_the_pool_holds() {
    let env = new_env();
    let pool = setup(&env);
    pool.amm.deposit_liquidity(&pool.admin, &100);

    assert_eq!(
        pool.amm.try_withdraw_liquidity(&pool.admin, &101),
        Err(Ok(Error::InsufficientLiquidity))
    );
    assert_eq!(pool.usdc.balance(&pool.amm_id), 100);
}

#[test]
fn withdraw_liquidity_rejects_non_positive_amounts() {
    let env = new_env();
    let pool = setup(&env);
    pool.amm.deposit_liquidity(&pool.admin, &100);

    assert_eq!(
        pool.amm.try_withdraw_liquidity(&pool.admin, &0),
        Err(Ok(Error::InvalidAmount))
    );
    assert_eq!(
        pool.amm.try_withdraw_liquidity(&pool.admin, &-1),
        Err(Ok(Error::InvalidAmount))
    );
    assert_eq!(pool.usdc.balance(&pool.amm_id), 100);
}

/// Only the address read from storage can satisfy `require_auth`, so
/// signing with any other address cannot drain the pool.
#[test]
#[should_panic]
fn non_admin_signer_cannot_authenticate_withdraw_liquidity() {
    let env = new_env();
    let pool = setup(&env);
    pool.amm.deposit_liquidity(&pool.admin, &100);
    let attacker = soroban_sdk::Address::generate(&env);

    env.mock_auths(&[MockAuth {
        address: &attacker,
        invoke: &MockAuthInvoke {
            contract: &pool.amm_id,
            fn_name: "withdraw_liquidity",
            args: (&attacker, &100i128).into_val(&env),
            sub_invokes: &[],
        },
    }]);
    pool.amm.withdraw_liquidity(&attacker, &100);
}

#[test]
fn the_admins_signature_is_what_a_withdrawal_takes() {
    let env = new_env();
    let pool = setup(&env);
    pool.amm.deposit_liquidity(&pool.admin, &100);
    let attacker = soroban_sdk::Address::generate(&env);

    env.mock_auths(&[MockAuth {
        address: &attacker,
        invoke: &MockAuthInvoke {
            contract: &pool.amm_id,
            fn_name: "withdraw_liquidity",
            args: (&attacker, &100i128).into_val(&env),
            sub_invokes: &[],
        },
    }]);
    assert!(pool.amm.try_withdraw_liquidity(&attacker, &100).is_err());
    assert_eq!(pool.usdc.balance(&pool.amm_id), 100);

    env.mock_auths(&[MockAuth {
        address: &pool.admin,
        invoke: &MockAuthInvoke {
            contract: &pool.amm_id,
            fn_name: "withdraw_liquidity",
            args: (&attacker, &100i128).into_val(&env),
            sub_invokes: &[],
        },
    }]);
    assert_eq!(pool.amm.try_withdraw_liquidity(&attacker, &100), Ok(()));
    assert_eq!(pool.usdc.balance(&attacker), 100);
}

#[test]
fn a_swap_under_the_traders_limit_moves_nothing() {
    let env = new_env();
    let pool = setup_at(&env, 500_000);
    pool.amm.deposit_liquidity(&pool.admin, &100);

    assert_eq!(
        pool.amm.try_swap(&pool.trader, &41, &21),
        Err(Ok(Error::SlippageExceeded))
    );
    assert_eq!(pool.wpi.balance(&pool.trader), 100);
    assert_eq!(pool.usdc.balance(&pool.amm_id), 100);

    assert_eq!(pool.amm.swap(&pool.trader, &41, &20), 20);
    assert_eq!(pool.wpi.balance(&pool.amm_id), 41);
    assert_eq!(pool.usdc.balance(&pool.trader), 20);
}

#[test]
fn a_swap_over_the_liquidity_moves_nothing() {
    let env = new_env();
    let pool = setup(&env);
    pool.amm.deposit_liquidity(&pool.admin, &30);

    assert_eq!(
        pool.amm.try_swap(&pool.trader, &40, &40),
        Err(Ok(Error::InsufficientLiquidity))
    );
    assert_eq!(pool.wpi.balance(&pool.trader), 100);
    assert_eq!(pool.usdc.balance(&pool.amm_id), 30);
}

#[test]
fn a_swap_of_more_than_the_trader_has_moves_nothing() {
    let env = new_env();
    let pool = setup_at(&env, 100_000);
    pool.amm.deposit_liquidity(&pool.admin, &100);

    assert!(pool.amm.try_swap(&pool.trader, &101, &0).is_err());
    assert_eq!(pool.wpi.balance(&pool.trader), 100);
    assert_eq!(pool.usdc.balance(&pool.amm_id), 100);
}

#[test]
fn a_negative_swap_moves_nothing() {
    let env = new_env();
    let pool = setup(&env);
    pool.amm.deposit_liquidity(&pool.admin, &100);

    assert!(pool.amm.try_swap(&pool.trader, &-10, &-10).is_err());
    assert_eq!(pool.wpi.balance(&pool.trader), 100);
    assert_eq!(pool.usdc.balance(&pool.amm_id), 100);
}

#[test]
fn a_pool_is_initialized_once() {
    let env = new_env();
    let pool = setup(&env);

    let again: Result<(), _> = pool.amm.try_call(
        "initialize",
        (&pool.trader, &pool.usdc.address, &1u32).into_val(&env),
    );
    assert!(again.is_err());

    pool.amm.deposit_liquidity(&pool.admin, &100);
    assert_eq!(pool.amm.swap(&pool.trader, &40, &40), 40);
}

#[test]
fn initialize_stores_the_networks_usdc() {
    let env = new_env();
    let amm_id = env.register(PoolContract, ());
    let admin = soroban_sdk::Address::generate(&env);
    let wpi = soroban_sdk::Address::generate(&env);
    env.mock_all_auths();

    env.invoke_contract::<()>(
        &amm_id,
        &Symbol::new(&env, "initialize"),
        (&admin, &wpi, &250_000u32).into_val(&env),
    );

    env.as_contract(&amm_id, || {
        let entry = |key: DataKey| perform(&env, HostCall::Load { key });
        assert_eq!(
            entry(DataKey::Admin),
            Reply::Entry(Some(Value::Address(address_in(&admin))))
        );
        assert_eq!(
            entry(DataKey::TokenIn),
            Reply::Entry(Some(Value::Address(address_in(&wpi))))
        );
        assert_eq!(
            entry(DataKey::TokenOut),
            Reply::Entry(Some(Value::Address(network_usdc())))
        );
        assert_eq!(
            entry(DataKey::Rate),
            Reply::Entry(Some(Value::Rate(250_000)))
        );
    });
}

#[test]
fn initialize_takes_the_admins_signature() {
    let env = new_env();
    let amm_id = env.register(PoolContract, ());
    let amm = Amm {
        env: &env,
        id: amm_id.clone(),
    };
    let admin = soroban_sdk::Address::generate(&env);
    let wpi = soroban_sdk::Address::generate(&env);

    let unsigned: Result<(), _> =
        amm.try_call("initialize", (&admin, &wpi, &1_000_000u32).into_val(&env));

    assert!(unsigned.is_err());
    env.as_contract(&amm_id, || {
        let key = DataKey::Admin;
        assert_eq!(perform(&env, HostCall::Has { key }), Reply::Found(false));
    });
}

#[test]
fn only_the_admin_may_be_named_in_an_upgrade() {
    let env = new_env();
    let pool = setup(&env);
    let hash = BytesN::from_array(&env, &[3; 32]);

    let refused: Result<(), _> = pool
        .amm
        .try_call("upgrade", (&pool.trader, &hash).into_val(&env));
    assert_eq!(refused, Err(Ok(Error::NotAdmin)));
}

#[test]
fn an_unconfigured_pool_answers_nothing() {
    let env = new_env();
    let amm_id = env.register(PoolContract, ());
    let amm = Amm { env: &env, id: amm_id };
    let someone = soroban_sdk::Address::generate(&env);
    env.mock_all_auths();

    assert!(amm.try_swap(&someone, &1, &0).is_err());
    assert!(amm.try_withdraw_liquidity(&someone, &1).is_err());
}

#[test]
fn an_upgrade_takes_the_admins_signature() {
    let env = new_env();
    let pool = setup(&env);
    let hash = BytesN::from_array(&env, &[3; 32]);
    env.mock_auths(&[]);

    let unsigned: Result<(), _> = pool
        .amm
        .try_call("upgrade", (&pool.admin, &hash).into_val(&env));
    assert!(unsigned.is_err());
    assert_ne!(unsigned, Err(Ok(Error::NotAdmin)));
}

#[test]
fn a_swap_takes_the_traders_signature() {
    let env = new_env();
    let pool = setup(&env);
    pool.amm.deposit_liquidity(&pool.admin, &100);
    env.mock_auths(&[]);

    assert!(pool.amm.try_swap(&pool.trader, &40, &40).is_err());
    assert_eq!(pool.wpi.balance(&pool.trader), 100);
    assert_eq!(pool.usdc.balance(&pool.amm_id), 100);
}

#[test]
fn a_deposit_takes_the_depositors_signature_and_holdings() {
    let env = new_env();
    let pool = setup(&env);
    let deposit = |amount: &i128| -> Result<(), _> {
        pool.amm
            .try_call("deposit_liquidity", (&pool.admin, amount).into_val(&env))
    };

    assert!(deposit(&101).is_err());
    assert!(deposit(&-1).is_err());
    assert_eq!(deposit(&30), Ok(()));
    env.mock_auths(&[]);
    assert!(deposit(&30).is_err());
    assert_eq!(pool.usdc.balance(&pool.admin), 70);
    assert_eq!(pool.usdc.balance(&pool.amm_id), 30);
}

#[test]
fn tokens_are_neither_made_nor_lost() {
    let env = new_env();
    let pool = setup_at(&env, 333_333);
    let holders = [&pool.admin, &pool.trader, &pool.amm_id];
    let total = |token: &token::Client| -> i128 { holders.iter().map(|h| token.balance(h)).sum() };
    assert_eq!((total(&pool.wpi), total(&pool.usdc)), (100, 100));

    pool.amm.deposit_liquidity(&pool.admin, &100);
    assert_eq!(pool.amm.swap(&pool.trader, &50, &0), 16);
    assert_eq!(pool.amm.swap(&pool.trader, &50, &0), 16);
    pool.amm.withdraw_liquidity(&pool.trader, &7);

    assert_eq!((total(&pool.wpi), total(&pool.usdc)), (100, 100));
    assert_eq!(pool.usdc.balance(&pool.amm_id), 61);
    assert_eq!(pool.wpi.balance(&pool.amm_id), 100);
}

#[test]
fn an_upgrade_takes_code_that_has_been_uploaded() {
    let env = new_env();
    let pool = setup(&env);
    let hash = BytesN::from_array(&env, &[3; 32]);

    let unknown: Result<(), _> = pool
        .amm
        .try_call("upgrade", (&pool.admin, &hash).into_val(&env));
    assert!(unknown.is_err());
    assert_ne!(unknown, Err(Ok(Error::NotAdmin)));
    assert_eq!(pool.usdc.balance(&pool.admin), 100);
}

#[test]
fn a_pool_that_may_not_hold_the_token_pays_nothing() {
    let env = new_env();
    let pool = setup(&env);
    pool.amm.deposit_liquidity(&pool.admin, &100);
    pool.usdc_asset
        .issuer()
        .set_flag(IssuerFlags::RevocableFlag);
    token::StellarAssetClient::new(&env, &pool.usdc.address).set_authorized(&pool.amm_id, &false);

    assert!(pool.amm.try_swap(&pool.trader, &40, &40).is_err());
    assert!(pool.amm.try_withdraw_liquidity(&pool.admin, &40).is_err());
    assert_eq!(pool.wpi.balance(&pool.trader), 100);
    assert_eq!(pool.usdc.balance(&pool.amm_id), 100);
    assert_eq!(
        pool.amm.try_withdraw_liquidity(&pool.admin, &101),
        Err(Ok(Error::InsufficientLiquidity))
    );
}

#[test]
fn what_is_paid_to_the_issuer_is_gone() {
    let env = new_env();
    let pool = setup(&env);
    let issuer = pool.usdc_asset.issuer().address();
    pool.amm.deposit_liquidity(&pool.admin, &100);
    let before = pool.usdc.balance(&issuer);

    pool.amm.withdraw_liquidity(&issuer, &25);

    assert_eq!(pool.usdc.balance(&issuer), before);
    assert_eq!(pool.usdc.balance(&pool.amm_id), 75);
}

#[test]
fn deposits_add_up_in_any_order() {
    for amounts in [vec![30, 45], vec![45, 30], vec![75]] {
        let env = new_env();
        let pool = setup(&env);
        for amount in amounts {
            pool.amm.deposit_liquidity(&pool.admin, &amount);
        }
        assert_eq!(pool.usdc.balance(&pool.admin), 25);
        assert_eq!(pool.usdc.balance(&pool.amm_id), 75);
    }
}
