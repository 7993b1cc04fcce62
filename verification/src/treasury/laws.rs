//! What holds of the contract as a whole.

use vstd::prelude::*;

use crate::shared::errors::KoraError;
use crate::shared::events::EventView;
use crate::shared::host::{
    begins_with_authorization, lemma_first_steps, replay, Call, Context, EffectView, Outcome, Step,
};
use crate::shared::types::Address;
use crate::shared::validation::BPS_SCALE;
use crate::treasury::model::{
    self, begin_emergency_withdraw, begin_withdraw, deployed, emergency_withdraw, fee_rate,
    initialize, set_fee_bps, withdraw, State,
};
use crate::treasury::{StoreOp, DEFAULT_FEE_BPS};

verus! {

/// A request that can change what the contract stores; `balance` is what the
/// token contract reports as the treasury's balance.
pub enum Request {
    Initialize { admin: Address, fee_bps: u32 },
    SetFeeBps { admin: Address, fee_bps: u32 },
    Withdraw { admin: Address, token: Address, recipient: Address, amount: i128, balance: i128 },
    EmergencyWithdraw { admin: Address, token: Address, recipient: Address, balance: i128 },
}

impl Request {
    /// Who makes the request: the one whose authorization it needs.
    pub open spec fn caller(self) -> Option<Address> {
        match self {
            Request::Initialize { .. } => None,
            Request::SetFeeBps { admin, .. } => Some(admin),
            Request::Withdraw { admin, .. } => Some(admin),
            Request::EmergencyWithdraw { admin, .. } => Some(admin),
        }
    }
}

/// How a request ends.
pub open spec fn perform(s: State, cx: Context, request: Request) -> Outcome<State, StoreOp, ()> {
    match request {
        Request::Initialize { admin, fee_bps } => initialize(s, admin, fee_bps),
        Request::SetFeeBps { admin, fee_bps } => set_fee_bps(s, admin, fee_bps),
        Request::Withdraw { admin, token, recipient, amount, balance } => withdraw(
            s,
            cx,
            admin,
            token,
            recipient,
            amount,
            balance,
        ),
        Request::EmergencyWithdraw { admin, token, recipient, balance } => emergency_withdraw(
            s,
            cx,
            admin,
            token,
            recipient,
            balance,
        ),
    }
}

/// The state of the contract after a history of requests.
pub open spec fn after(history: Seq<(Context, Request)>) -> State
    decreases history.len(),
{
    if history.len() == 0 {
        deployed()
    } else {
        perform(after(history.drop_last()), history.last().0, history.last().1).state
    }
}

/// The fee rate is at most the whole, and no withdrawal is under way.
pub open spec fn consistent(s: State) -> bool {
    fee_rate(s) <= BPS_SCALE && !s.locked
}

/// Every request keeps the contract consistent; in particular the lock is free
/// after every withdrawal, whether it succeeds or fails.
pub proof fn consistency_is_kept(s: State, cx: Context, request: Request)
    requires
        consistent(s),
    ensures
        consistent(perform(s, cx, request).state),
{
}

/// The contract is consistent after every history of requests.
pub proof fn always_consistent(history: Seq<(Context, Request)>)
    ensures
        consistent(after(history)),
    decreases history.len(),
{
    if history.len() > 0 {
        always_consistent(history.drop_last());
        consistency_is_kept(after(history.drop_last()), history.last().0, history.last().1);
    }
}

/// A request that fails changes nothing.
pub proof fn failure_changes_nothing(s: State, cx: Context, request: Request)
    ensures
        perform(s, cx, request).result is Err ==> perform(s, cx, request).state == s,
{
}

/// Whoever is not the admin is refused and moves no money.
pub proof fn only_the_admin_is_served(s: State, cx: Context, request: Request)
    requires
        request.caller() is Some,
        s.admin is Some,
        s.admin != request.caller(),
    ensures
        perform(s, cx, request).result == Err::<(), KoraError>(KoraError::NotAdmin),
        perform(s, cx, request).state == s,
        perform(s, cx, request).log == seq![
            Step::<StoreOp, EventView>::RequireAuth(request.caller()->0),
        ],
{
}

/// The admin is set once and never changes; initializing again is refused.
pub proof fn admin_is_for_good(s: State, cx: Context, request: Request)
    requires
        s.admin is Some,
    ensures
        perform(s, cx, request).state.admin == s.admin,
        request is Initialize ==> perform(s, cx, request).result == Err::<(), KoraError>(
            KoraError::AlreadyInitialized,
        ),
{
}

/// The caller's authorization comes first: before anything is stored, published
/// or called, and also where the request is refused.
pub proof fn authorization_comes_first(s: State, cx: Context, request: Request)
    ensures
        request.caller() matches Some(caller) ==> begins_with_authorization(
            perform(s, cx, request).log,
            caller,
        ),
{
}

/// The state that the first `n` steps of a log lead to.
pub open spec fn replayed(s: State, log: Seq<EffectView<StoreOp>>, n: int) -> State {
    replay(|t: State, op: StoreOp| model::apply(t, op), s, log, n)
}

/// The storage steps that a request asks for lead to the state it ends in.
#[verifier::rlimit(40)]
pub proof fn steps_lead_to_the_state(s: State, cx: Context, request: Request)
    ensures
        replayed(s, perform(s, cx, request).log, perform(s, cx, request).log.len() as int)
            == perform(s, cx, request).state,
{
    let log = perform(s, cx, request).log;
    lemma_first_steps(|t: State, op: StoreOp| model::apply(t, op), s, log);
    match request {
        Request::Initialize { .. } => {},
        Request::SetFeeBps { .. } => {},
        Request::Withdraw { .. } => {},
        Request::EmergencyWithdraw { .. } => {},
    }
}

/// Whenever money moves the withdrawal lock is held.
pub proof fn money_moves_under_the_lock(s: State, cx: Context, request: Request, i: int)
    requires
        0 <= i < perform(s, cx, request).log.len(),
        perform(s, cx, request).log[i] is Call,
    ensures
        replayed(s, perform(s, cx, request).log, i).locked,
{
    let f = |t: State, op: StoreOp| model::apply(t, op);
    let log = perform(s, cx, request).log;
    assert(i == 2) by {
        match request {
            Request::Withdraw { .. } => {},
            _ => {},
        }
    }
    assert(log[0] is RequireAuth && log[1] == model::stored(StoreOp::SetWithdrawalLock(true)));
    assert(replay(f, s, log, 1) == s) by {
        reveal_with_fuel(replay, 2);
    }
}

/// A withdrawal cannot be entered from within another one: while the lock is
/// held the admin is refused both kinds.
pub proof fn no_reentry(s: State, cx: Context, admin: Address, amount: i128)
    requires
        s.locked,
        s.admin == Some(admin),
        amount > 0,
    ensures
        begin_withdraw(s, admin, amount).result == Err::<(), KoraError>(KoraError::Reentrancy),
        begin_emergency_withdraw(s, admin).result == Err::<(), KoraError>(KoraError::Reentrancy),
{
}

/// A withdrawal that succeeds pays the amount, and nothing else, to the
/// recipient, and never more than the balance; one that asks for more than the
/// balance is refused and pays nothing.
pub proof fn withdrawal_is_covered(
    s: State,
    cx: Context,
    admin: Address,
    token: Address,
    recipient: Address,
    amount: i128,
    balance: i128,
)
    requires
        consistent(s),
        s.admin == Some(admin),
        amount > 0,
    ensures
        ({
            let end = withdraw(s, cx, admin, token, recipient, amount, balance);
            &&& amount <= balance ==> {
                &&& end.result is Ok
                &&& end.log[2] == Step::<StoreOp, EventView>::Call(
                    Call::Transfer { token, from: cx.contract, to: recipient, amount },
                )
                &&& forall|i: int|
                    0 <= i < end.log.len() && i != 2 ==> !(#[trigger] end.log[i] is Call)
            }
            &&& amount > balance ==> {
                &&& end.result == Err::<(), KoraError>(KoraError::InsufficientPoolBalance)
                &&& end.state == s
                &&& forall|i: int| 0 <= i < end.log.len() ==> !(#[trigger] end.log[i] is Call)
            }
        }),
{
}

/// An emergency withdrawal pays out exactly the whole balance; with nothing in
/// the treasury it succeeds and pays nothing.
pub proof fn emergency_drains_the_balance(
    s: State,
    cx: Context,
    admin: Address,
    token: Address,
    recipient: Address,
    balance: i128,
)
    requires
        consistent(s),
        s.admin == Some(admin),
    ensures
        ({
            let end = emergency_withdraw(s, cx, admin, token, recipient, balance);
            &&& end.result is Ok
            &&& end.state == s
            &&& balance > 0 ==> {
                &&& end.log[2] == Step::<StoreOp, EventView>::Call(
                    Call::Transfer { token, from: cx.contract, to: recipient, amount: balance },
                )
                &&& forall|i: int|
                    0 <= i < end.log.len() && i != 2 ==> !(#[trigger] end.log[i] is Call)
            }
            &&& balance <= 0 ==> forall|i: int|
                0 <= i < end.log.len() ==> !(#[trigger] end.log[i] is Call)
        }),
{
}

/// The fee rate is the one that was set last; withdrawals do not touch it, and
/// before it is set it is the default.
pub proof fn fee_rate_is_the_one_set_last(s: State, cx: Context, request: Request)
    ensures
        fee_rate(deployed()) == DEFAULT_FEE_BPS,
        perform(s, cx, request).result is Ok ==> match request {
            Request::Initialize { fee_bps, .. } => fee_rate(perform(s, cx, request).state)
                == fee_bps,
            Request::SetFeeBps { fee_bps, .. } => fee_rate(perform(s, cx, request).state)
                == fee_bps,
            _ => fee_rate(perform(s, cx, request).state) == fee_rate(s),
        },
{
}

/// Any rate up to the whole can be set, and none above it.
pub proof fn any_rate_up_to_the_whole(s: State, admin: Address, fee_bps: u32)
    requires
        s.admin == Some(admin),
    ensures
        fee_bps <= BPS_SCALE ==> set_fee_bps(s, admin, fee_bps).result is Ok,
        fee_bps > BPS_SCALE ==> set_fee_bps(s, admin, fee_bps).result == Err::<(), KoraError>(
            KoraError::InvalidFeeRate,
        ),
{
}

} // verus!
