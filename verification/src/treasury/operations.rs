//! What each operation promises, in terms of its inputs: when it succeeds, why
//! it is refused, what it changes and what it asks of the host.

use vstd::prelude::*;

use crate::shared::errors::KoraError;
use crate::shared::events::{EventView, Shape, Topic, Value};
use crate::shared::host::{Call, Context, Durability, EffectView, Step};
use crate::shared::types::Address;
use crate::treasury::model::{
    begin_emergency_withdraw, begin_withdraw, complete_emergency_withdraw, complete_withdraw,
    deployed, emergency_withdraw, fee_rate, initialize, set_fee_bps, withdraw, State,
};
use crate::treasury::{DataKey, StoreOp, TreasuryContract};

verus! {

/// The state is what is stored.
pub proof fn state_is_what_is_stored(contract: TreasuryContract)
    ensures
        contract@.admin == contract.admin,
        contract@.fee_bps == contract.fee_bps,
        contract@.locked == contract.locked,
{
}

/// A change to the storage is told as it was made.
pub proof fn change_is_told(op: StoreOp)
    ensures
        op@ == op,
{
}

/// Nothing is configured at first, and no withdrawal is under way.
pub proof fn nothing_at_first()
    ensures
        deployed().admin is None,
        deployed().fee_bps is None,
        !deployed().locked,
{
}

/// Every entry lives on its own.
pub proof fn where_entries_live(key: DataKey)
    ensures
        key.spec_durability() == Durability::Persistent,
{
}

/// Whether a log asks for one authorization and nothing else.
pub open spec fn asks_only(log: Seq<EffectView<StoreOp>>, who: Address) -> bool {
    log.len() == 1 && log[0] == Step::<StoreOp, EventView>::RequireAuth(who)
}

/// Initializing succeeds exactly where nobody was the admin yet and the fee is
/// at most the whole; it sets the admin and the fee and nothing else.
pub proof fn initializing(s: State, admin: Address, fee_bps: u32)
    ensures
        ({
            let end = initialize(s, admin, fee_bps);
            &&& end.result is Ok <==> s.admin is None && fee_bps <= 10_000
            &&& s.admin is Some ==> end.result == Err::<(), KoraError>(
                KoraError::AlreadyInitialized,
            )
            &&& s.admin is None && fee_bps > 10_000 ==> end.result == Err::<(), KoraError>(
                KoraError::InvalidFeeRate,
            )
            &&& end.result is Err ==> end.state == s && end.log.len() == 0
            &&& end.result is Ok ==> {
                &&& end.state.admin == Some(admin) && end.state.fee_bps == Some(fee_bps)
                &&& end.state.locked == s.locked
                &&& end.log.len() == 3
                &&& end.log[0] == Step::<StoreOp, EventView>::Store(StoreOp::SetAdmin(admin))
                &&& end.log[1] == Step::<StoreOp, EventView>::Store(StoreOp::SetFeeBps(fee_bps))
                &&& end.log[2] == Step::<StoreOp, EventView>::Publish(
                    EventView {
                        topic: Topic::TresIni,
                        shape: Shape::Tuple,
                        data: seq![Value::Address(admin), Value::U32(fee_bps)],
                    },
                )
            }
        }),
{
}

/// The fee is set exactly when the admin asks and it is at most the whole. The
/// event tells the rate before, which is fifty basis points where none was
/// stored, and the rate from now on.
pub proof fn setting_the_fee(s: State, admin: Address, fee_bps: u32)
    ensures
        ({
            let end = set_fee_bps(s, admin, fee_bps);
            let asked = s.admin == Some(admin);
            let before: u32 = if s.fee_bps is Some {
                s.fee_bps->0
            } else {
                50
            };
            &&& end.result is Ok <==> asked && fee_bps <= 10_000
            &&& s.admin is None ==> end.result == Err::<(), KoraError>(KoraError::NotInitialized)
            &&& s.admin is Some && !asked ==> end.result == Err::<(), KoraError>(
                KoraError::NotAdmin,
            )
            &&& asked && fee_bps > 10_000 ==> end.result == Err::<(), KoraError>(
                KoraError::InvalidFeeRate,
            )
            &&& end.result is Err ==> end.state == s && asks_only(end.log, admin)
            &&& end.result is Ok ==> {
                &&& end.state.fee_bps == Some(fee_bps)
                &&& end.state.admin == s.admin && end.state.locked == s.locked
                &&& end.log.len() == 4
                &&& end.log[0] == Step::<StoreOp, EventView>::RequireAuth(admin)
                &&& end.log[1] == Step::<StoreOp, EventView>::Store(StoreOp::SetFeeBps(fee_bps))
                &&& end.log[2] == Step::<StoreOp, EventView>::Store(
                    StoreOp::ExtendTtl {
                        key: DataKey::FeeBps,
                        threshold: 267_840,
                        extend_to: 535_680,
                    },
                )
                &&& end.log[3] == Step::<StoreOp, EventView>::Publish(
                    EventView {
                        topic: Topic::FeeUpd,
                        shape: Shape::Tuple,
                        data: seq![
                            Value::Address(admin),
                            Value::U32(before),
                            Value::U32(fee_bps),
                        ],
                    },
                )
            }
        }),
{
}

/// The rate in force is the one that is stored, and fifty basis points where
/// none is.
pub proof fn reading_the_fee(s: State)
    ensures
        s.fee_bps matches Some(bps) ==> fee_rate(s) == bps,
        s.fee_bps is None ==> fee_rate(s) == 50,
{
}

/// Money is withdrawn exactly when the admin asks, the amount is positive, no
/// withdrawal is under way and the balance covers the amount. The amount goes
/// from the contract to the recipient, and the state is as before.
pub proof fn withdrawing(
    s: State,
    cx: Context,
    admin: Address,
    token: Address,
    recipient: Address,
    amount: i128,
    balance: i128,
)
    ensures
        ({
            let end = withdraw(s, cx, admin, token, recipient, amount, balance);
            let asked = s.admin == Some(admin);
            let begun = asked && amount > 0 && !s.locked;
            &&& end.result is Ok <==> begun && balance >= amount
            &&& s.admin is None ==> end.result == Err::<(), KoraError>(KoraError::NotInitialized)
            &&& s.admin is Some && !asked ==> end.result == Err::<(), KoraError>(
                KoraError::NotAdmin,
            )
            &&& asked && amount <= 0 ==> end.result == Err::<(), KoraError>(
                KoraError::InvalidAmount,
            )
            &&& asked && amount > 0 && s.locked ==> end.result == Err::<(), KoraError>(
                KoraError::Reentrancy,
            )
            &&& begun && balance < amount ==> end.result == Err::<(), KoraError>(
                KoraError::InsufficientPoolBalance,
            )
            &&& end.state == s
            &&& !begun ==> asks_only(end.log, admin)
            &&& begun ==> {
                &&& end.log[0] == Step::<StoreOp, EventView>::RequireAuth(admin)
                &&& end.log[1] == Step::<StoreOp, EventView>::Store(
                    StoreOp::SetWithdrawalLock(true),
                )
            }
            &&& begun && balance < amount ==> {
                &&& end.log.len() == 3
                &&& end.log[2] == Step::<StoreOp, EventView>::Store(
                    StoreOp::SetWithdrawalLock(false),
                )
            }
            &&& end.result is Ok ==> {
                &&& end.log.len() == 5
                &&& end.log[2] == Step::<StoreOp, EventView>::Call(
                    Call::Transfer { token, from: cx.contract, to: recipient, amount },
                )
                &&& end.log[3] == Step::<StoreOp, EventView>::Store(
                    StoreOp::SetWithdrawalLock(false),
                )
                &&& end.log[4] == Step::<StoreOp, EventView>::Publish(
                    EventView {
                        topic: Topic::FeeWth,
                        shape: Shape::Tuple,
                        data: seq![Value::Address(token), Value::I128(amount)],
                    },
                )
            }
        }),
{
}

/// The two parts of a withdrawal: the first takes the lock exactly when the
/// admin asks, the amount is positive and nothing is under way; the second
/// sends the amount exactly when the balance covers it, and gives the lock back
/// either way.
pub proof fn withdrawing_in_two_parts(
    s: State,
    cx: Context,
    admin: Address,
    token: Address,
    recipient: Address,
    amount: i128,
    balance: i128,
)
    ensures
        ({
            let first = begin_withdraw(s, admin, amount);
            let asked = s.admin == Some(admin);
            &&& first.result is Ok <==> asked && amount > 0 && !s.locked
            &&& s.admin is None ==> first.result == Err::<(), KoraError>(KoraError::NotInitialized)
            &&& s.admin is Some && !asked ==> first.result == Err::<(), KoraError>(
                KoraError::NotAdmin,
            )
            &&& asked && amount <= 0 ==> first.result == Err::<(), KoraError>(
                KoraError::InvalidAmount,
            )
            &&& asked && amount > 0 && s.locked ==> first.result == Err::<(), KoraError>(
                KoraError::Reentrancy,
            )
            &&& first.result is Err ==> first.state == s && asks_only(first.log, admin)
            &&& first.result is Ok ==> {
                &&& first.state.locked && first.state.admin == s.admin
                &&& first.state.fee_bps == s.fee_bps
                &&& first.log.len() == 2
                &&& first.log[0] == Step::<StoreOp, EventView>::RequireAuth(admin)
                &&& first.log[1] == Step::<StoreOp, EventView>::Store(
                    StoreOp::SetWithdrawalLock(true),
                )
            }
        }),
        ({
            let second = complete_withdraw(s, cx, token, recipient, amount, balance);
            &&& second.result is Ok <==> balance >= amount
            &&& balance < amount ==> second.result == Err::<(), KoraError>(
                KoraError::InsufficientPoolBalance,
            )
            &&& !second.state.locked && second.state.admin == s.admin
            &&& second.state.fee_bps == s.fee_bps
            &&& second.result is Err ==> {
                &&& second.log.len() == 1
                &&& second.log[0] == Step::<StoreOp, EventView>::Store(
                    StoreOp::SetWithdrawalLock(false),
                )
            }
            &&& second.result is Ok ==> {
                &&& second.log.len() == 3
                &&& second.log[0] == Step::<StoreOp, EventView>::Call(
                    Call::Transfer { token, from: cx.contract, to: recipient, amount },
                )
                &&& second.log[1] == Step::<StoreOp, EventView>::Store(
                    StoreOp::SetWithdrawalLock(false),
                )
                &&& second.log[2] == Step::<StoreOp, EventView>::Publish(
                    EventView {
                        topic: Topic::FeeWth,
                        shape: Shape::Tuple,
                        data: seq![Value::Address(token), Value::I128(amount)],
                    },
                )
            }
        }),
{
}

/// Everything is withdrawn exactly when the admin asks and no withdrawal is
/// under way. The whole balance goes from the contract to the recipient where
/// there is any; the state is as before.
pub proof fn withdrawing_everything(
    s: State,
    cx: Context,
    admin: Address,
    token: Address,
    recipient: Address,
    balance: i128,
)
    ensures
        ({
            let end = emergency_withdraw(s, cx, admin, token, recipient, balance);
            let asked = s.admin == Some(admin);
            &&& end.result is Ok <==> asked && !s.locked
            &&& s.admin is None ==> end.result == Err::<(), KoraError>(KoraError::NotInitialized)
            &&& s.admin is Some && !asked ==> end.result == Err::<(), KoraError>(
                KoraError::NotAdmin,
            )
            &&& asked && s.locked ==> end.result == Err::<(), KoraError>(KoraError::Reentrancy)
            &&& end.state == s
            &&& end.result is Err ==> asks_only(end.log, admin)
            &&& end.result is Ok ==> {
                &&& end.log[0] == Step::<StoreOp, EventView>::RequireAuth(admin)
                &&& end.log[1] == Step::<StoreOp, EventView>::Store(
                    StoreOp::SetWithdrawalLock(true),
                )
            }
            &&& end.result is Ok && balance <= 0 ==> {
                &&& end.log.len() == 3
                &&& end.log[2] == Step::<StoreOp, EventView>::Store(
                    StoreOp::SetWithdrawalLock(false),
                )
            }
            &&& end.result is Ok && balance > 0 ==> {
                &&& end.log.len() == 5
                &&& end.log[2] == Step::<StoreOp, EventView>::Call(
                    Call::Transfer { token, from: cx.contract, to: recipient, amount: balance },
                )
                &&& end.log[3] == Step::<StoreOp, EventView>::Store(
                    StoreOp::SetWithdrawalLock(false),
                )
                &&& end.log[4] == Step::<StoreOp, EventView>::Publish(
                    EventView {
                        topic: Topic::EmrgWth,
                        shape: Shape::Tuple,
                        data: seq![
                            Value::Address(admin),
                            Value::Address(token),
                            Value::I128(balance),
                        ],
                    },
                )
            }
        }),
{
}

/// The two parts of withdrawing everything: the first takes the lock exactly
/// when the admin asks and nothing is under way; the second sends the balance
/// where there is any, and gives the lock back either way.
pub proof fn withdrawing_everything_in_two_parts(
    s: State,
    cx: Context,
    admin: Address,
    token: Address,
    recipient: Address,
    balance: i128,
)
    ensures
        ({
            let first = begin_emergency_withdraw(s, admin);
            let asked = s.admin == Some(admin);
            &&& first.result is Ok <==> asked && !s.locked
            &&& s.admin is None ==> first.result == Err::<(), KoraError>(KoraError::NotInitialized)
            &&& s.admin is Some && !asked ==> first.result == Err::<(), KoraError>(
                KoraError::NotAdmin,
            )
            &&& asked && s.locked ==> first.result == Err::<(), KoraError>(KoraError::Reentrancy)
            &&& first.result is Err ==> first.state == s && asks_only(first.log, admin)
            &&& first.result is Ok ==> {
                &&& first.state.locked && first.state.admin == s.admin
                &&& first.state.fee_bps == s.fee_bps
                &&& first.log.len() == 2
                &&& first.log[0] == Step::<StoreOp, EventView>::RequireAuth(admin)
                &&& first.log[1] == Step::<StoreOp, EventView>::Store(
                    StoreOp::SetWithdrawalLock(true),
                )
            }
        }),
        ({
            let second = complete_emergency_withdraw(s, cx, admin, token, recipient, balance);
            &&& second.result is Ok
            &&& !second.state.locked && second.state.admin == s.admin
            &&& second.state.fee_bps == s.fee_bps
            &&& balance <= 0 ==> {
                &&& second.log.len() == 1
                &&& second.log[0] == Step::<StoreOp, EventView>::Store(
                    StoreOp::SetWithdrawalLock(false),
                )
            }
            &&& balance > 0 ==> {
                &&& second.log.len() == 3
                &&& second.log[0] == Step::<StoreOp, EventView>::Call(
                    Call::Transfer { token, from: cx.contract, to: recipient, amount: balance },
                )
                &&& second.log[1] == Step::<StoreOp, EventView>::Store(
                    StoreOp::SetWithdrawalLock(false),
                )
                &&& second.log[2] == Step::<StoreOp, EventView>::Publish(
                    EventView {
                        topic: Topic::EmrgWth,
                        shape: Shape::Tuple,
                        data: seq![
                            Value::Address(admin),
                            Value::Address(token),
                            Value::I128(balance),
                        ],
                    },
                )
            }
        }),
{
}

} // verus!
