//! What each invocation of the pool does, from its first call to its end.

use vstd::prelude::*;

use crate::address::{Address, Bytes32};
use crate::error::{Error, Fault};
use crate::host::{HostCall, Reply, Run, Step};
use crate::pricing::{quotable, quoted};
use crate::storage::{entry_address, entry_rate, DataKey, Value};

verus! {

/// What the host knows that decides how an invocation goes. Of facts that are
/// learnt from replies, those that the replies do not tell are left open.
pub struct Facts {
    /// The network's USDC contract.
    pub usdc: Address,
    /// The pool's own address.
    pub pool: Address,
    /// Whether there is an admin entry.
    pub initialized: bool,
    /// The entries of instance storage, as far as they hold what they should.
    pub admin: Option<Address>,
    pub token_in: Option<Address>,
    pub token_out: Option<Address>,
    pub rate: Option<u32>,
    /// How much of `token_out` is the pool's.
    pub liquidity: i128,
}

/// Configuring the pool: traps where there is an admin entry, else writes all
/// four entries.
pub open spec fn set_config_run(
    admin: Address,
    token_in: Address,
    token_out: Address,
    rate_bps: u32,
    facts: Facts,
) -> Run<()> {
    if facts.initialized {
        Run {
            calls: seq![HostCall::Has { key: DataKey::Admin }],
            last: Step::Trap(Fault::AlreadyInitialized),
        }
    } else {
        Run {
            calls: seq![
                HostCall::Has { key: DataKey::Admin },
                HostCall::Store { key: DataKey::Admin, value: Value::Address(admin) },
                HostCall::Store { key: DataKey::TokenIn, value: Value::Address(token_in) },
                HostCall::Store { key: DataKey::TokenOut, value: Value::Address(token_out) },
                HostCall::Store { key: DataKey::Rate, value: Value::Rate(rate_bps) },
            ],
            last: Step::Return(()),
        }
    }
}

/// What replies to a configuration tell.
pub open spec fn set_config_facts(replies: Seq<Reply>) -> Facts {
    Facts { initialized: replies[0]->Found_0, ..arbitrary() }
}

/// Initializing the pool: configures it to pay out the network's USDC, once the
/// admin has authorized that.
pub open spec fn initialize_run(
    admin: Address,
    token_in: Address,
    rate_bps: u32,
    facts: Facts,
) -> Run<()> {
    set_config_run(admin, token_in, facts.usdc, rate_bps, facts).after(
        HostCall::RequireAuth { address: admin },
    ).after(HostCall::NetworkUsdc)
}

/// What replies to an initialization tell.
pub open spec fn initialize_facts(replies: Seq<Reply>) -> Facts {
    Facts { usdc: replies[0]->Address_0, initialized: replies[2]->Found_0, ..arbitrary() }
}

/// The calls with which a swap starts: the trader's authorization, then the
/// entries that it goes by.
pub open spec fn swap_opening(to: Address) -> Seq<HostCall> {
    seq![
        HostCall::RequireAuth { address: to },
        HostCall::Load { key: DataKey::TokenIn },
        HostCall::Load { key: DataKey::TokenOut },
        HostCall::Load { key: DataKey::Rate },
    ]
}

/// A swap: takes `amount_in` of the one token from the trader and pays the
/// quoted amount of the other, unless that is less than the trader asks for or
/// more than the pool has.
pub open spec fn swap_run(
    to: Address,
    amount_in: i128,
    min_amount_out: i128,
    facts: Facts,
) -> Run<Result<i128, Error>> {
    let opening = swap_opening(to);
    match (facts.token_in, facts.token_out, facts.rate) {
        (None, _, _) => Run {
            calls: opening.take(2),
            last: Step::Trap(Fault::MissingEntry(DataKey::TokenIn)),
        },
        (Some(_), None, _) => Run {
            calls: opening.take(3),
            last: Step::Trap(Fault::MissingEntry(DataKey::TokenOut)),
        },
        (Some(_), Some(_), None) => Run {
            calls: opening,
            last: Step::Trap(Fault::MissingEntry(DataKey::Rate)),
        },
        (Some(token_in), Some(token_out), Some(rate)) => {
            let amount_out = quoted(amount_in as int, rate as int);
            let inquiry = seq![
                HostCall::CurrentContract,
                HostCall::Balance { token: token_out, holder: facts.pool },
            ];
            let exchange = seq![
                HostCall::Transfer { token: token_in, from: to, to: facts.pool, amount: amount_in },
                HostCall::Transfer {
                    token: token_out,
                    from: facts.pool,
                    to,
                    amount: amount_out as i128,
                },
            ];
            if !quotable(amount_in as int, rate as int) {
                Run { calls: opening, last: Step::Trap(Fault::Overflow) }
            } else if amount_out < min_amount_out {
                Run { calls: opening, last: Step::Return(Err(Error::SlippageExceeded)) }
            } else if facts.liquidity < amount_out {
                Run {
                    calls: opening + inquiry,
                    last: Step::Return(Err(Error::InsufficientLiquidity)),
                }
            } else {
                Run {
                    calls: opening + inquiry + exchange,
                    last: Step::Return(Ok(amount_out as i128)),
                }
            }
        },
    }
}

/// What replies to a swap tell.
pub open spec fn swap_facts(replies: Seq<Reply>) -> Facts {
    Facts {
        token_in: entry_address(replies[1]->Entry_0),
        token_out: entry_address(replies[2]->Entry_0),
        rate: entry_rate(replies[3]->Entry_0),
        pool: replies[4]->Address_0,
        liquidity: replies[5]->Balance_0,
        ..arbitrary()
    }
}

/// A deposit: moves `amount_out` of the token that the pool pays out from the
/// depositor to the pool.
pub open spec fn deposit_liquidity_run(
    from: Address,
    amount_out: i128,
    facts: Facts,
) -> Run<()> {
    let opening = seq![
        HostCall::RequireAuth { address: from },
        HostCall::Load { key: DataKey::TokenOut },
    ];
    match facts.token_out {
        None => Run {
            calls: opening,
            last: Step::Trap(Fault::MissingEntry(DataKey::TokenOut)),
        },
        Some(token_out) => Run {
            calls: opening + seq![
                HostCall::CurrentContract,
                HostCall::Transfer { token: token_out, from, to: facts.pool, amount: amount_out },
            ],
            last: Step::Return(()),
        },
    }
}

/// What replies to a deposit tell.
pub open spec fn deposit_liquidity_facts(replies: Seq<Reply>) -> Facts {
    Facts {
        token_out: entry_address(replies[1]->Entry_0),
        pool: replies[2]->Address_0,
        ..arbitrary()
    }
}

/// A withdrawal: pays `amount` of the pool's liquidity to `to`, once the stored
/// admin has authorized that, unless the amount is not positive or more than
/// the pool has.
pub open spec fn withdraw_liquidity_run(
    to: Address,
    amount: i128,
    facts: Facts,
) -> Run<Result<(), Error>> {
    let load_admin = seq![HostCall::Load { key: DataKey::Admin }];
    match facts.admin {
        None => Run {
            calls: load_admin,
            last: Step::Trap(Fault::MissingEntry(DataKey::Admin)),
        },
        Some(admin) => {
            let opening = load_admin + seq![HostCall::RequireAuth { address: admin }];
            let load_token = seq![HostCall::Load { key: DataKey::TokenOut }];
            if amount <= 0 {
                Run { calls: opening, last: Step::Return(Err(Error::InvalidAmount)) }
            } else {
                match facts.token_out {
                    None => Run {
                        calls: opening + load_token,
                        last: Step::Trap(Fault::MissingEntry(DataKey::TokenOut)),
                    },
                    Some(token_out) => {
                        let inquiry = load_token + seq![
                            HostCall::CurrentContract,
                            HostCall::Balance { token: token_out, holder: facts.pool },
                        ];
                        let payment = seq![
                            HostCall::Transfer { token: token_out, from: facts.pool, to, amount },
                        ];
                        if facts.liquidity < amount {
                            Run {
                                calls: opening + inquiry,
                                last: Step::Return(Err(Error::InsufficientLiquidity)),
                            }
                        } else {
                            Run {
                                calls: opening + inquiry + payment,
                                last: Step::Return(Ok(())),
                            }
                        }
                    },
                }
            }
        },
    }
}

/// What replies to a withdrawal tell.
pub open spec fn withdraw_liquidity_facts(replies: Seq<Reply>) -> Facts {
    Facts {
        admin: entry_address(replies[0]->Entry_0),
        token_out: entry_address(replies[2]->Entry_0),
        pool: replies[3]->Address_0,
        liquidity: replies[4]->Balance_0,
        ..arbitrary()
    }
}

/// An upgrade: replaces the pool's code, if `admin` is the stored admin and has
/// authorized that.
pub open spec fn upgrade_run(
    admin: Address,
    new_wasm_hash: Bytes32,
    facts: Facts,
) -> Run<Result<(), Error>> {
    let load_admin = seq![HostCall::Load { key: DataKey::Admin }];
    match facts.admin {
        None => Run {
            calls: load_admin,
            last: Step::Trap(Fault::MissingEntry(DataKey::Admin)),
        },
        Some(current_admin) => if admin != current_admin {
            Run { calls: load_admin, last: Step::Return(Err(Error::NotAdmin)) }
        } else {
            Run {
                calls: load_admin + seq![
                    HostCall::RequireAuth { address: admin },
                    HostCall::UpdateWasm { hash: new_wasm_hash },
                ],
                last: Step::Return(Ok(())),
            }
        },
    }
}

/// What replies to an upgrade tell.
pub open spec fn upgrade_facts(replies: Seq<Reply>) -> Facts {
    Facts { admin: entry_address(replies[0]->Entry_0), ..arbitrary() }
}

} // verus!
