//! The contract as a mathematical state machine.

use vstd::prelude::*;

use crate::shared::errors::KoraError;
use crate::shared::events;
use crate::shared::host::{refused, Call, Context, EffectView, Outcome, Step};
use crate::shared::types::Address;
use crate::shared::validation::BPS_SCALE;
use crate::treasury::{
    DataKey, StoreOp, TreasuryContract, DEFAULT_FEE_BPS, PERSISTENT_BUMP_AMOUNT,
    PERSISTENT_LIFETIME_THRESHOLD,
};

verus! {

/// What the contract stores.
#[verifier::ext_equal]
pub struct State {
    pub admin: Option<Address>,
    pub fee_bps: Option<u32>,
    pub locked: bool,
}

impl View for TreasuryContract {
    type V = State;

    open spec fn view(&self) -> State {
        State { admin: self.admin, fee_bps: self.fee_bps, locked: self.locked }
    }
}

pub open spec fn deployed() -> State {
    State { admin: None, fee_bps: None, locked: false }
}

/// What a storage step does to the state.
pub open spec fn apply(s: State, op: StoreOp) -> State {
    match op {
        StoreOp::SetAdmin(admin) => State { admin: Some(admin), ..s },
        StoreOp::SetFeeBps(fee_bps) => State { fee_bps: Some(fee_bps), ..s },
        StoreOp::SetWithdrawalLock(locked) => State { locked, ..s },
        StoreOp::ExtendTtl { .. } => s,
    }
}

pub open spec fn stored(op: StoreOp) -> EffectView<StoreOp> {
    Step::Store(op)
}

/// The fee rate in force.
pub open spec fn fee_rate(s: State) -> u32 {
    match s.fee_bps {
        Some(bps) => bps,
        None => DEFAULT_FEE_BPS,
    }
}

/// Why a request that only the admin may make is refused to the caller.
pub open spec fn admin_error(s: State, caller: Address) -> Option<KoraError> {
    if s.admin is None {
        Some(KoraError::NotInitialized)
    } else if s.admin != Some(caller) {
        Some(KoraError::NotAdmin)
    } else {
        None
    }
}

pub open spec fn initialize(s: State, admin: Address, fee_bps: u32) -> Outcome<State, StoreOp, ()> {
    if s.admin is Some {
        Outcome { result: Err(KoraError::AlreadyInitialized), state: s, log: Seq::empty() }
    } else if fee_bps > BPS_SCALE {
        Outcome { result: Err(KoraError::InvalidFeeRate), state: s, log: Seq::empty() }
    } else {
        Outcome {
            result: Ok(()),
            state: State { admin: Some(admin), fee_bps: Some(fee_bps), ..s },
            log: seq![
                stored(StoreOp::SetAdmin(admin)),
                stored(StoreOp::SetFeeBps(fee_bps)),
                Step::Publish(events::treasury_initialized_event(admin, fee_bps)),
            ],
        }
    }
}

/// Why setting the fee is refused.
pub open spec fn set_fee_bps_error(s: State, admin: Address, fee_bps: u32) -> Option<KoraError> {
    if admin_error(s, admin) is Some {
        admin_error(s, admin)
    } else if fee_bps > BPS_SCALE {
        Some(KoraError::InvalidFeeRate)
    } else {
        None
    }
}

pub open spec fn set_fee_bps(s: State, admin: Address, fee_bps: u32) -> Outcome<
    State,
    StoreOp,
    (),
> {
    match set_fee_bps_error(s, admin, fee_bps) {
        Some(e) => refused(s, admin, e),
        None => Outcome {
            result: Ok(()),
            state: State { fee_bps: Some(fee_bps), ..s },
            log: seq![
                Step::RequireAuth(admin),
                stored(StoreOp::SetFeeBps(fee_bps)),
                stored(
                    StoreOp::ExtendTtl {
                        key: DataKey::FeeBps,
                        threshold: PERSISTENT_LIFETIME_THRESHOLD,
                        extend_to: PERSISTENT_BUMP_AMOUNT,
                    },
                ),
                Step::Publish(events::fee_rate_updated_event(admin, fee_rate(s), fee_bps)),
            ],
        },
    }
}

/// Why a withdrawal is refused before the balance is asked for.
pub open spec fn begin_withdraw_error(s: State, admin: Address, amount: i128) -> Option<KoraError> {
    if admin_error(s, admin) is Some {
        admin_error(s, admin)
    } else if amount <= 0 {
        Some(KoraError::InvalidAmount)
    } else if s.locked {
        Some(KoraError::Reentrancy)
    } else {
        None
    }
}

pub open spec fn begin_withdraw(s: State, admin: Address, amount: i128) -> Outcome<
    State,
    StoreOp,
    (),
> {
    match begin_withdraw_error(s, admin, amount) {
        Some(e) => refused(s, admin, e),
        None => Outcome {
            result: Ok(()),
            state: State { locked: true, ..s },
            log: seq![Step::RequireAuth(admin), stored(StoreOp::SetWithdrawalLock(true))],
        },
    }
}

pub open spec fn complete_withdraw(
    s: State,
    cx: Context,
    token: Address,
    recipient: Address,
    amount: i128,
    balance: i128,
) -> Outcome<State, StoreOp, ()> {
    if balance < amount {
        Outcome {
            result: Err(KoraError::InsufficientPoolBalance),
            state: State { locked: false, ..s },
            log: seq![stored(StoreOp::SetWithdrawalLock(false))],
        }
    } else {
        Outcome {
            result: Ok(()),
            state: State { locked: false, ..s },
            log: seq![
                Step::Call(
                    Call::Transfer { token, from: cx.contract, to: recipient, amount },
                ),
                stored(StoreOp::SetWithdrawalLock(false)),
                Step::Publish(events::fee_withdrawn_event(token, amount)),
            ],
        }
    }
}

pub open spec fn withdraw(
    s: State,
    cx: Context,
    admin: Address,
    token: Address,
    recipient: Address,
    amount: i128,
    balance: i128,
) -> Outcome<State, StoreOp, ()> {
    let first = begin_withdraw(s, admin, amount);
    first.followed_by(
        complete_withdraw(first.state, cx, token, recipient, amount, balance),
    )
}

/// Why an emergency drain is refused before the balance is asked for.
pub open spec fn begin_emergency_withdraw_error(s: State, admin: Address) -> Option<KoraError> {
    if admin_error(s, admin) is Some {
        admin_error(s, admin)
    } else if s.locked {
        Some(KoraError::Reentrancy)
    } else {
        None
    }
}

pub open spec fn begin_emergency_withdraw(s: State, admin: Address) -> Outcome<
    State,
    StoreOp,
    (),
> {
    match begin_emergency_withdraw_error(s, admin) {
        Some(e) => refused(s, admin, e),
        None => Outcome {
            result: Ok(()),
            state: State { locked: true, ..s },
            log: seq![Step::RequireAuth(admin), stored(StoreOp::SetWithdrawalLock(true))],
        },
    }
}

pub open spec fn complete_emergency_withdraw(
    s: State,
    cx: Context,
    admin: Address,
    token: Address,
    recipient: Address,
    balance: i128,
) -> Outcome<State, StoreOp, ()> {
    Outcome {
        result: Ok(()),
        state: State { locked: false, ..s },
        log: if balance > 0 {
            seq![
                Step::Call(
                    Call::Transfer { token, from: cx.contract, to: recipient, amount: balance },
                ),
                stored(StoreOp::SetWithdrawalLock(false)),
                Step::Publish(events::emergency_withdrawn_event(admin, token, balance)),
            ]
        } else {
            seq![stored(StoreOp::SetWithdrawalLock(false))]
        },
    }
}

pub open spec fn emergency_withdraw(
    s: State,
    cx: Context,
    admin: Address,
    token: Address,
    recipient: Address,
    balance: i128,
) -> Outcome<State, StoreOp, ()> {
    let first = begin_emergency_withdraw(s, admin);
    first.followed_by(
        complete_emergency_withdraw(first.state, cx, admin, token, recipient, balance),
    )
}

} // verus!
