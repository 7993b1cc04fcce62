//! What each operation promises, in terms of its inputs: when it succeeds, why
//! it is refused, what it changes and what it asks of the host.

use vstd::prelude::*;

use crate::financing_pool::laws::{
    every_position_is_paid_once, payouts_are_covered, recorded_position_takes_its_place,
    total_paid, total_shares,
};
use crate::financing_pool::model::{
    begin_release_funds, complete_release_funds, deployed, distribution, get_pool, get_positions,
    has_room, initialize, lemma_room, lemma_share_bounds, mark_default, new_position, payable,
    payout, position_payable, record_position, release_funds, repay, with_position, Op, State,
};
use crate::financing_pool::{DataKey, FinancingPoolContract, StoreOp};
use crate::shared::errors::KoraError;
use crate::shared::events::{EventView, Shape, Topic, Value};
use crate::shared::host::{Call, Context, Durability, EffectView, Step};
use crate::shared::types::{Address, Pool, Position};

verus! {

/// The state is what is stored.
pub proof fn state_is_what_is_stored(contract: FinancingPoolContract)
    ensures
        contract@.admin == contract.admin,
        contract@.invoice_nft == contract.invoice_nft,
        contract@.treasury == contract.treasury,
        contract@.access_control == contract.access_control,
        contract@.late_penalty_bps == contract.late_penalty_bps,
        contract@.pools == contract.pools@,
        contract@.positions == contract.positions@,
        contract@.repayment_locks == contract.repayment_locks@,
{
}

/// A change to the storage is told as it was made.
pub proof fn change_is_told(op: StoreOp<Vec<Position>>)
    ensures
        op matches StoreOp::SetAdmin(x) ==> op@ == Op::SetAdmin(x),
        op matches StoreOp::SetInvoiceNft(x) ==> op@ == Op::SetInvoiceNft(x),
        op matches StoreOp::SetTreasury(x) ==> op@ == Op::SetTreasury(x),
        op matches StoreOp::SetAccessControl(x) ==> op@ == Op::SetAccessControl(x),
        op matches StoreOp::SetLatePenaltyBps(x) ==> op@ == Op::SetLatePenaltyBps(x),
        op matches StoreOp::SetPool(id, x) ==> op@ == Op::SetPool(id, x),
        op matches StoreOp::SetPositions(id, x) ==> op@ == Op::SetPositions(id, x@),
        op matches StoreOp::SetRepaymentLock(id) ==> op@ == Op::SetRepaymentLock(id),
        op matches StoreOp::RemoveRepaymentLock(id) ==> op@ == Op::RemoveRepaymentLock(id),
{
}

/// Nothing is configured or held at first.
pub proof fn nothing_at_first(invoice_id: u64)
    ensures
        ({
            let s = deployed();
            &&& s.admin is None && s.invoice_nft is None && s.treasury is None
            &&& s.access_control is None && s.late_penalty_bps is None
            &&& !s.pools.contains_key(invoice_id) && !s.positions.contains_key(invoice_id)
            &&& !s.repayment_locks.contains_key(invoice_id)
        }),
{
}

/// What belongs to an invoice lives in entries of its own, all else with the
/// contract instance.
pub proof fn where_entries_live(key: DataKey)
    ensures
        key.spec_durability() == Durability::Persistent <==> key is Pool || key is Positions
            || key is RepaymentLock,
{
}

/// Whether a log asks for one authorization and nothing else.
pub open spec fn asks_only(log: Seq<EffectView<Op>>, who: Address) -> bool {
    log.len() == 1 && log[0] == Step::<Op, EventView>::RequireAuth(who)
}

/// The positions of an invoice; none where nothing was recorded.
pub open spec fn held(s: State, invoice_id: u64) -> Seq<Position> {
    if s.positions.contains_key(invoice_id) {
        s.positions[invoice_id]
    } else {
        Seq::empty()
    }
}

/// Ten-thousandths, rounded toward zero.
pub open spec fn ten_thousandths(n: int) -> int {
    if n >= 0 {
        n / 10_000
    } else {
        -((-n) / 10_000)
    }
}

/// Whether everything that a payout of `total` computes stays in the range of
/// `i128`: each position's product, and its gain.
pub open spec fn computable(positions: Seq<Position>, total: int) -> bool {
    forall|i: int|
        #![trigger positions[i]]
        0 <= i < positions.len() ==> i128::MIN <= total * positions[i].share_bps <= i128::MAX
            && i128::MIN <= ten_thousandths(total * positions[i].share_bps)
            - positions[i].contributed <= i128::MAX
}

/// Whether a step is a transfer.
pub open spec fn transfers(step: EffectView<Op>) -> bool {
    step matches Step::Call(call) && call is Transfer
}

/// Whether the steps of a log from the one at `start` on pay every position, in
/// order, its share of `total` in the token, each payment followed by the event
/// that tells the gain over the contribution.
pub open spec fn pays_everyone(
    log: Seq<EffectView<Op>>,
    start: int,
    cx: Context,
    invoice_id: u64,
    token: Address,
    total: int,
    positions: Seq<Position>,
) -> bool {
    forall|i: int|
        #![trigger positions[i]]
        0 <= i < positions.len() ==> {
            let amount = ten_thousandths(total * positions[i].share_bps);
            &&& log[start + 2 * i] == Step::<Op, EventView>::Call(
                Call::Transfer {
                    token,
                    from: cx.contract,
                    to: positions[i].investor,
                    amount: amount as i128,
                },
            )
            &&& (amount as i128) == amount
            &&& log[start + 2 * i + 1] == Step::<Op, EventView>::Publish(
                EventView {
                    topic: Topic::Yield,
                    shape: Shape::Tuple,
                    data: seq![
                        Value::U64(invoice_id),
                        Value::Address(positions[i].investor),
                        Value::I128((amount - positions[i].contributed) as i128),
                    ],
                },
            )
        }
}

/// Initializing succeeds exactly where nobody was the admin yet and the penalty
/// is at most the whole; it sets the configuration and nothing else.
pub proof fn initializing(
    s: State,
    admin: Address,
    invoice_nft: Address,
    treasury: Address,
    access_control: Address,
    late_penalty_bps: u32,
)
    ensures
        ({
            let end = initialize(
                s,
                admin,
                invoice_nft,
                treasury,
                access_control,
                late_penalty_bps,
            );
            &&& end.result is Ok <==> s.admin is None && late_penalty_bps <= 10_000
            &&& s.admin is Some ==> end.result == Err::<(), KoraError>(
                KoraError::AlreadyInitialized,
            )
            &&& s.admin is None && late_penalty_bps > 10_000 ==> end.result == Err::<
                (),
                KoraError,
            >(KoraError::InvalidFeeRate)
            &&& end.result is Err ==> end.state == s && end.log.len() == 0
            &&& end.result is Ok ==> {
                &&& end.state.admin == Some(admin) && end.state.invoice_nft == Some(invoice_nft)
                &&& end.state.treasury == Some(treasury)
                &&& end.state.access_control == Some(access_control)
                &&& end.state.late_penalty_bps == Some(late_penalty_bps)
                &&& end.state.pools == s.pools && end.state.positions == s.positions
                &&& end.state.repayment_locks == s.repayment_locks
                &&& end.log.len() == 5
                &&& end.log[0] == Step::<Op, EventView>::Store(StoreOp::SetAdmin(admin))
                &&& end.log[1] == Step::<Op, EventView>::Store(StoreOp::SetInvoiceNft(invoice_nft))
                &&& end.log[2] == Step::<Op, EventView>::Store(StoreOp::SetTreasury(treasury))
                &&& end.log[3] == Step::<Op, EventView>::Store(
                    StoreOp::SetAccessControl(access_control),
                )
                &&& end.log[4] == Step::<Op, EventView>::Store(
                    StoreOp::SetLatePenaltyBps(late_penalty_bps),
                )
            }
        }),
{
}

/// A pool is opened exactly when the protocol is not paused, the invoice has no
/// pool yet, the token is not the contract itself, the contract is configured
/// and the invoice's amount is positive and at most half of what an `i128`
/// holds.
pub proof fn opening_succeeds_exactly_when(
    s: State,
    cx: Context,
    marketplace: Address,
    invoice_id: u64,
    token: Address,
    amount: i128,
)
    ensures
        ({
            let end = release_funds(s, cx, marketplace, invoice_id, token, amount);
            let taken = s.pools.contains_key(invoice_id);
            let in_range = 0 < amount <= i128::MAX / 2;
            let asked = !cx.protocol_paused && !taken && token != cx.contract
                && s.invoice_nft is Some;
            &&& end.result is Ok <==> asked && in_range && s.late_penalty_bps is Some
            &&& cx.protocol_paused ==> end.result == Err::<(), KoraError>(KoraError::ProtocolPaused)
            &&& !cx.protocol_paused && taken ==> end.result == Err::<(), KoraError>(
                KoraError::PoolAlreadyClosed,
            )
            &&& !cx.protocol_paused && !taken && token == cx.contract ==> end.result == Err::<
                (),
                KoraError,
            >(KoraError::InvalidAddress)
            &&& !cx.protocol_paused && !taken && token != cx.contract && s.invoice_nft is None
                ==> end.result == Err::<(), KoraError>(KoraError::NotInitialized)
            &&& asked && !in_range ==> end.result == Err::<(), KoraError>(KoraError::InvalidAmount)
            &&& asked && in_range && s.late_penalty_bps is None ==> end.result == Err::<
                (),
                KoraError,
            >(KoraError::NotInitialized)
            &&& end.result is Err ==> end.state == s && asks_only(end.log, marketplace)
        }),
{
}

/// Opening a pool stores an open one that nothing was paid into, worth the
/// invoice's amount, and reports the invoice as funded. Nothing else changes.
pub proof fn opening_makes_a_pool(
    s: State,
    cx: Context,
    marketplace: Address,
    invoice_id: u64,
    token: Address,
    amount: i128,
    other: u64,
)
    requires
        release_funds(s, cx, marketplace, invoice_id, token, amount).result is Ok,
    ensures
        ({
            let end = release_funds(s, cx, marketplace, invoice_id, token, amount);
            let made = end.state.pools[invoice_id];
            &&& end.state.pools.contains_key(invoice_id)
            &&& made.invoice_id == invoice_id && made.token == token && made.face_value == amount
            &&& made.total_funded == 0 && made.repaid_amount == 0 && !made.is_closed
            &&& s.late_penalty_bps == Some(made.late_penalty_bps)
            &&& other != invoice_id ==> end.state.pools.contains_key(other)
                == s.pools.contains_key(other) && end.state.pools[other] == s.pools[other]
            &&& end.state.admin == s.admin && end.state.invoice_nft == s.invoice_nft
            &&& end.state.treasury == s.treasury && end.state.access_control == s.access_control
            &&& end.state.late_penalty_bps == s.late_penalty_bps
            &&& end.state.positions == s.positions
            &&& end.state.repayment_locks == s.repayment_locks
            &&& end.log.len() == 4
            &&& end.log[0] == Step::<Op, EventView>::RequireAuth(marketplace)
            &&& end.log[1] == Step::<Op, EventView>::Store(StoreOp::SetPool(invoice_id, made))
            &&& end.log[2] == Step::<Op, EventView>::Publish(
                EventView {
                    topic: Topic::PoolOpen,
                    shape: Shape::Tuple,
                    data: seq![
                        Value::U64(invoice_id),
                        Value::Address(marketplace),
                        Value::U32(cx.sequence),
                    ],
                },
            )
            &&& end.log[3] == Step::<Op, EventView>::Call(
                Call::SetFunded {
                    invoice_nft: s.invoice_nft->0,
                    caller: cx.contract,
                    invoice_id,
                },
            )
        }),
{
}

/// Opening a pool in two parts, around the question for the invoice's amount,
/// is opening it at once. The first part gives the contract to ask and leaves
/// the state alone.
pub proof fn opening_in_two_parts(
    s: State,
    cx: Context,
    marketplace: Address,
    invoice_id: u64,
    token: Address,
    amount: i128,
)
    ensures
        ({
            let whole = release_funds(s, cx, marketplace, invoice_id, token, amount);
            let first = begin_release_funds(s, cx, marketplace, invoice_id, token);
            &&& first.result is Ok <==> !cx.protocol_paused && !s.pools.contains_key(invoice_id)
                && token != cx.contract && s.invoice_nft is Some
            &&& first.state == s && asks_only(first.log, marketplace)
            &&& first.result matches Err(e) ==> whole.result == Err::<(), KoraError>(e)
            &&& first.result matches Ok(invoice_nft) ==> {
                let second = complete_release_funds(
                    first.state,
                    cx,
                    invoice_nft,
                    marketplace,
                    invoice_id,
                    token,
                    amount,
                );
                &&& s.invoice_nft == Some(invoice_nft)
                &&& second.result == whole.result && second.state == whole.state
                &&& whole.log == first.log + second.log
            }
        }),
{
}

/// The second part of opening a pool on its own.
pub proof fn completing_an_opening(
    s: State,
    cx: Context,
    invoice_nft: Address,
    marketplace: Address,
    invoice_id: u64,
    token: Address,
    amount: i128,
    other: u64,
)
    ensures
        ({
            let end = complete_release_funds(
                s,
                cx,
                invoice_nft,
                marketplace,
                invoice_id,
                token,
                amount,
            );
            let in_range = 0 < amount <= i128::MAX / 2;
            &&& end.result is Ok <==> in_range && s.late_penalty_bps is Some
            &&& !in_range ==> end.result == Err::<(), KoraError>(KoraError::InvalidAmount)
            &&& in_range && s.late_penalty_bps is None ==> end.result == Err::<(), KoraError>(
                KoraError::NotInitialized,
            )
            &&& end.result is Err ==> end.state == s && end.log.len() == 0
            &&& end.result is Ok ==> {
                let made = end.state.pools[invoice_id];
                &&& end.state.pools.contains_key(invoice_id)
                &&& made.invoice_id == invoice_id && made.token == token
                &&& made.face_value == amount && made.total_funded == 0
                &&& made.repaid_amount == 0 && !made.is_closed
                &&& s.late_penalty_bps == Some(made.late_penalty_bps)
                &&& other != invoice_id ==> end.state.pools.contains_key(other)
                    == s.pools.contains_key(other) && end.state.pools[other] == s.pools[other]
                &&& end.state == State { pools: end.state.pools, ..s }
                &&& end.log.len() == 3
                &&& end.log[0] == Step::<Op, EventView>::Store(StoreOp::SetPool(invoice_id, made))
                &&& end.log[1] == Step::<Op, EventView>::Publish(
                    EventView {
                        topic: Topic::PoolOpen,
                        shape: Shape::Tuple,
                        data: seq![
                            Value::U64(invoice_id),
                            Value::Address(marketplace),
                            Value::U32(cx.sequence),
                        ],
                    },
                )
                &&& end.log[2] == Step::<Op, EventView>::Call(
                    Call::SetFunded { invoice_nft, caller: cx.contract, invoice_id },
                )
            }
        }),
{
}

/// A position is recorded exactly when the admin asks, the protocol is not
/// paused, both amounts are positive and at most half of what an `i128` holds,
/// the contribution is at most the whole pool, and ten thousand times the
/// contribution can be computed.
pub proof fn recording_succeeds_exactly_when(
    s: State,
    cx: Context,
    caller: Address,
    invoice_id: u64,
    investor: Address,
    contributed: i128,
    total_pool: i128,
)
    ensures
        ({
            let end = record_position(
                s,
                cx,
                caller,
                invoice_id,
                investor,
                contributed,
                total_pool,
            );
            let asked = s.admin == Some(caller) && !cx.protocol_paused;
            let in_range = 0 < contributed <= total_pool && total_pool <= i128::MAX / 2;
            let small = contributed * 10_000 <= i128::MAX;
            &&& end.result is Ok <==> asked && in_range && small
            &&& s.admin is None ==> end.result == Err::<(), KoraError>(KoraError::NotInitialized)
            &&& s.admin is Some && s.admin != Some(caller) ==> end.result == Err::<(), KoraError>(
                KoraError::NotAdmin,
            )
            &&& s.admin == Some(caller) && cx.protocol_paused ==> end.result == Err::<
                (),
                KoraError,
            >(KoraError::ProtocolPaused)
            &&& asked && !in_range ==> end.result == Err::<(), KoraError>(KoraError::InvalidAmount)
            &&& asked && in_range && !small ==> end.result == Err::<(), KoraError>(
                KoraError::ArithmeticOverflow,
            )
            &&& end.result is Err ==> end.state == s && asks_only(end.log, caller)
        }),
{
}

/// Recording a position changes the positions of that invoice and nothing else:
/// the investor then has one position there, with the share of the pool that
/// was contributed, everybody else has what they had, and all are in the order
/// of the investors.
pub proof fn recording_adds_a_position(
    s: State,
    cx: Context,
    caller: Address,
    invoice_id: u64,
    investor: Address,
    contributed: i128,
    total_pool: i128,
    other: u64,
)
    requires
        record_position(s, cx, caller, invoice_id, investor, contributed, total_pool).result is Ok,
        forall|i: int, j: int|
            0 <= i < j < held(s, invoice_id).len() ==> (#[trigger] held(
                s,
                invoice_id,
            )[i]).investor.spec_precedes((#[trigger] held(s, invoice_id)[j]).investor),
    ensures
        ({
            let end = record_position(
                s,
                cx,
                caller,
                invoice_id,
                investor,
                contributed,
                total_pool,
            );
            let before = held(s, invoice_id);
            let now = end.state.positions[invoice_id];
            let share = contributed * 10_000 / total_pool as int;
            let made = Position {
                investor,
                invoice_id,
                contributed,
                share_bps: share as u32,
                yield_claimed: 0,
            };
            &&& end.state.positions.contains_key(invoice_id)
            &&& 0 <= share <= 10_000
            &&& now.contains(made)
            &&& forall|p: Position|
                p.investor != investor ==> now.contains(p) == #[trigger] before.contains(p)
            &&& forall|p: Position| #[trigger]
                now.contains(p) && p.investor == investor ==> p == made
            &&& forall|i: int, j: int|
                0 <= i < j < now.len() ==> (#[trigger] now[i]).investor.spec_precedes(
                    (#[trigger] now[j]).investor,
                )
            &&& now.len() <= before.len() + 1
            &&& other != invoice_id ==> end.state.positions.contains_key(other)
                == s.positions.contains_key(other) && end.state.positions[other]
                == s.positions[other]
            &&& end.state == State { positions: end.state.positions, ..s }
            &&& end.log.len() == 3
            &&& end.log[0] == Step::<Op, EventView>::RequireAuth(caller)
            &&& end.log[1] == Step::<Op, EventView>::Store(StoreOp::SetPositions(invoice_id, now))
            &&& end.log[2] == Step::<Op, EventView>::Publish(
                EventView {
                    topic: Topic::PosRec,
                    shape: Shape::Tuple,
                    data: seq![
                        Value::U64(invoice_id),
                        Value::Address(caller),
                        Value::Address(investor),
                        Value::I128(contributed),
                        Value::U32(cx.sequence),
                    ],
                },
            )
        }),
{
    let before = held(s, invoice_id);
    let position = new_position(invoice_id, investor, contributed, total_pool);
    assert(before == get_positions(s, invoice_id));
    recorded_position_takes_its_place(before, position);
    lemma_share_bounds(contributed, total_pool);
    lemma_room(before, position);
    let now = with_position(before, position);
    assert forall|p: Position| p.investor != investor implies now.contains(p)
        == #[trigger] before.contains(p) by {
        assert(now.contains(p) <==> p == position || (p.investor != position.investor
            && before.contains(p)));
    }
    assert(now.contains(position));
}

/// A pool with fewer positions than the host can keep has room for any other.
pub proof fn room_for_one_more(positions: Seq<Position>, position: Position)
    requires
        positions.len() < u32::MAX,
    ensures
        has_room(positions, position),
{
}

/// A repayment succeeds exactly when its amount is positive and at most half of
/// what an `i128` holds, no repayment of the invoice is under way, its pool is
/// there and open, and the sum can be computed; where it reaches the face value,
/// also the payouts must be computable and the invoice contract be known.
pub proof fn repaying_succeeds_exactly_when(
    s: State,
    cx: Context,
    payer: Address,
    invoice_id: u64,
    token: Address,
    amount: i128,
)
    ensures
        ({
            let end = repay(s, cx, payer, invoice_id, token, amount);
            let pool = s.pools[invoice_id];
            let total = pool.repaid_amount + amount;
            let in_range = 0 < amount <= i128::MAX / 2;
            let locked = s.repayment_locks.contains_key(invoice_id);
            let known = s.pools.contains_key(invoice_id);
            let open = in_range && !locked && known && !pool.is_closed;
            let closing = open && total <= i128::MAX && total >= pool.face_value;
            let payable = computable(held(s, invoice_id), total);
            &&& end.result is Ok <==> open && total <= i128::MAX && (total < pool.face_value || (
            payable && s.invoice_nft is Some))
            &&& !in_range ==> end.result == Err::<(), KoraError>(KoraError::InvalidAmount)
            &&& in_range && locked ==> end.result == Err::<(), KoraError>(KoraError::Unauthorized)
            &&& in_range && !locked && !known ==> end.result == Err::<(), KoraError>(
                KoraError::PoolNotFound,
            )
            &&& in_range && !locked && known && pool.is_closed ==> end.result == Err::<
                (),
                KoraError,
            >(KoraError::RepaymentAlreadyMade)
            &&& open && total > i128::MAX ==> end.result == Err::<(), KoraError>(
                KoraError::ArithmeticOverflow,
            )
            &&& closing && !payable ==> end.result == Err::<(), KoraError>(
                KoraError::ArithmeticOverflow,
            )
            &&& closing && payable && s.invoice_nft is None ==> end.result == Err::<(), KoraError>(
                KoraError::NotInitialized,
            )
            &&& end.result is Err ==> end.state == s && asks_only(end.log, payer)
        }),
{
    let pool = s.pools[invoice_id];
    let total = pool.repaid_amount + amount;
    if i128::MIN <= total <= i128::MAX {
        lemma_computable(held(s, invoice_id), total as i128);
    }
    assert(held(s, invoice_id) == get_positions(s, invoice_id));
}

/// What can be paid out is what can be computed.
proof fn lemma_computable(positions: Seq<Position>, total: i128)
    ensures
        payable(positions, total) <==> computable(positions, total as int),
{
    if payable(positions, total) {
        assert forall|i: int|
            #![trigger positions[i]]
            0 <= i < positions.len() implies i128::MIN <= total * positions[i].share_bps
            <= i128::MAX && i128::MIN <= ten_thousandths(total * positions[i].share_bps)
            - positions[i].contributed <= i128::MAX by {
            assert(position_payable(positions[i], total));
        }
    }
    if computable(positions, total as int) {
        assert forall|i: int| 0 <= i < positions.len() implies position_payable(
            #[trigger] positions[i],
            total,
        ) by {}
    }
}

/// A repayment adds its amount to what was repaid, and closes the pool exactly
/// when the face value is reached. Nothing else changes.
pub proof fn repaying_raises_the_amount(
    s: State,
    cx: Context,
    payer: Address,
    invoice_id: u64,
    token: Address,
    amount: i128,
    other: u64,
)
    requires
        repay(s, cx, payer, invoice_id, token, amount).result is Ok,
    ensures
        ({
            let end = repay(s, cx, payer, invoice_id, token, amount);
            let old = s.pools[invoice_id];
            let new = end.state.pools[invoice_id];
            &&& end.state.pools.contains_key(invoice_id)
            &&& new.repaid_amount == old.repaid_amount + amount
            &&& new.is_closed <==> old.repaid_amount + amount >= old.face_value
            &&& new.invoice_id == old.invoice_id && new.token == old.token
            &&& new.total_funded == old.total_funded && new.face_value == old.face_value
            &&& new.late_penalty_bps == old.late_penalty_bps
            &&& other != invoice_id ==> end.state.pools.contains_key(other)
                == s.pools.contains_key(other) && end.state.pools[other] == s.pools[other]
            &&& end.state == State { pools: end.state.pools, ..s }
        }),
{
}

/// A repayment takes the lock, stores the pool, moves the payment from the payer
/// to the contract, tells it, and gives the lock back at the end. One that does
/// not reach the face value does nothing else.
pub proof fn repaying_takes_the_payment(
    s: State,
    cx: Context,
    payer: Address,
    invoice_id: u64,
    token: Address,
    amount: i128,
)
    requires
        repay(s, cx, payer, invoice_id, token, amount).result is Ok,
    ensures
        ({
            let end = repay(s, cx, payer, invoice_id, token, amount);
            let old = s.pools[invoice_id];
            &&& end.log[0] == Step::<Op, EventView>::RequireAuth(payer)
            &&& end.log[1] == Step::<Op, EventView>::Store(StoreOp::SetRepaymentLock(invoice_id))
            &&& end.log[2] == Step::<Op, EventView>::Store(
                StoreOp::SetPool(invoice_id, end.state.pools[invoice_id]),
            )
            &&& end.log[3] == Step::<Op, EventView>::Call(
                Call::Transfer { token, from: payer, to: cx.contract, amount },
            )
            &&& end.log[4] == Step::<Op, EventView>::Publish(
                EventView {
                    topic: Topic::Repay,
                    shape: Shape::Tuple,
                    data: seq![
                        Value::U64(invoice_id),
                        Value::Address(payer),
                        Value::I128(amount),
                    ],
                },
            )
            &&& end.log.last() == Step::<Op, EventView>::Store(
                StoreOp::RemoveRepaymentLock(invoice_id),
            )
            &&& old.repaid_amount + amount < old.face_value ==> end.log.len() == 6
        }),
{
}

/// A repayment that reaches the face value pays, after it was received, every
/// position its share of all that was repaid: the amount repaid before and this
/// one. Then it reports the invoice as repaid.
pub proof fn closing_repayment_pays_everyone(
    s: State,
    cx: Context,
    payer: Address,
    invoice_id: u64,
    token: Address,
    amount: i128,
)
    requires
        repay(s, cx, payer, invoice_id, token, amount).result is Ok,
        s.pools[invoice_id].repaid_amount + amount >= s.pools[invoice_id].face_value,
    ensures
        ({
            let end = repay(s, cx, payer, invoice_id, token, amount);
            let positions = held(s, invoice_id);
            let total = s.pools[invoice_id].repaid_amount + amount;
            &&& end.log.len() == 7 + 2 * positions.len()
            &&& pays_everyone(end.log, 5, cx, invoice_id, token, total, positions)
            &&& end.log[5 + 2 * (positions.len() as int)] == Step::<Op, EventView>::Call(
                Call::SetRepaid {
                    invoice_nft: s.invoice_nft->0,
                    caller: cx.contract,
                    invoice_id,
                },
            )
        }),
{
    let end = repay(s, cx, payer, invoice_id, token, amount);
    let positions = held(s, invoice_id);
    let total = (s.pools[invoice_id].repaid_amount + amount) as i128;
    assert(positions == get_positions(s, invoice_id));
    repaying_succeeds_exactly_when(s, cx, payer, invoice_id, token, amount);
    lemma_computable(positions, total);
    every_position_is_paid_once(cx, invoice_id, token, total, positions);
    let steps = distribution(cx, invoice_id, token, total, positions);
    assert forall|k: int| 0 <= k < steps.len() implies end.log[5 + k] == #[trigger] steps[k] by {}
    lemma_steps_pay(end.log, 5, cx, invoice_id, token, total, positions);
}

/// Steps that pay out a repayment pay everyone.
proof fn lemma_steps_pay(
    log: Seq<EffectView<Op>>,
    start: int,
    cx: Context,
    invoice_id: u64,
    token: Address,
    total: i128,
    positions: Seq<Position>,
)
    requires
        payable(positions, total),
        0 <= start,
        start + 2 * positions.len() <= log.len(),
        forall|k: int|
            0 <= k < 2 * positions.len() ==> log[start + k] == #[trigger] distribution(
                cx,
                invoice_id,
                token,
                total,
                positions,
            )[k],
    ensures
        pays_everyone(log, start, cx, invoice_id, token, total as int, positions),
{
    every_position_is_paid_once(cx, invoice_id, token, total, positions);
    lemma_computable(positions, total);
    let steps = distribution(cx, invoice_id, token, total, positions);
    assert forall|i: int| #![trigger positions[i]] 0 <= i < positions.len() implies {
        let amount = ten_thousandths(total * positions[i].share_bps);
        &&& log[start + 2 * i] == Step::<Op, EventView>::Call(
            Call::Transfer {
                token,
                from: cx.contract,
                to: positions[i].investor,
                amount: amount as i128,
            },
        )
        &&& (amount as i128) == amount
        &&& log[start + 2 * i + 1] == Step::<Op, EventView>::Publish(
            EventView {
                topic: Topic::Yield,
                shape: Shape::Tuple,
                data: seq![
                    Value::U64(invoice_id),
                    Value::Address(positions[i].investor),
                    Value::I128((amount - positions[i].contributed) as i128),
                ],
            },
        )
    } by {
        let amount = ten_thousandths(total * positions[i].share_bps);
        assert(payout(positions[i], total) == amount as i128);
        assert(i128::MIN <= total * positions[i].share_bps <= i128::MAX);
        assert((amount as i128) == amount);
        assert(log[start + 2 * i] == steps[2 * i]);
        assert(log[start + (2 * i + 1)] == steps[2 * i + 1]);
    }
}

/// A closing repayment moves no money but the payment and the payouts.
pub proof fn closing_repayment_moves_nothing_else(
    s: State,
    cx: Context,
    payer: Address,
    invoice_id: u64,
    token: Address,
    amount: i128,
    k: int,
)
    requires
        repay(s, cx, payer, invoice_id, token, amount).result is Ok,
        s.pools[invoice_id].repaid_amount + amount >= s.pools[invoice_id].face_value,
        0 <= k < repay(s, cx, payer, invoice_id, token, amount).log.len(),
    ensures
        transfers(repay(s, cx, payer, invoice_id, token, amount).log[k]) <==> k == 3 || exists|i: int|
            0 <= i < held(s, invoice_id).len() && k == #[trigger] (5 + 2 * i),
{
    let end = repay(s, cx, payer, invoice_id, token, amount);
    let positions = held(s, invoice_id);
    let n = positions.len() as int;
    repaying_takes_the_payment(s, cx, payer, invoice_id, token, amount);
    closing_repayment_pays_everyone(s, cx, payer, invoice_id, token, amount);
    assert(end.log.last() == end.log[6 + 2 * n]);
    if 5 <= k < 5 + 2 * n {
        let i = (k - 5) / 2;
        let p = positions[i];
        assert(0 <= i < n);
        assert(k == 5 + 2 * i || k == 5 + 2 * i + 1);
    }
    assert forall|i: int| 0 <= i < n && k == #[trigger] (5 + 2 * i) implies transfers(
        end.log[k],
    ) by {
        let p = positions[i];
    }
}

/// What the first `n` steps of a log transfer away from an address, all in all.
pub open spec fn sent(log: Seq<EffectView<Op>>, from: Address, n: int) -> int
    decreases n,
{
    if n <= 0 {
        0
    } else {
        sent(log, from, n - 1) + match log[n - 1] {
            Step::Call(call) => match call {
                Call::Transfer { token: _, from: payer, to: _, amount } => if payer == from {
                    amount as int
                } else {
                    0
                },
                _ => 0,
            },
            _ => 0,
        }
    }
}

/// A payout that is part of a log sends the sum of the payouts.
proof fn lemma_sent(
    log: Seq<EffectView<Op>>,
    start: int,
    cx: Context,
    invoice_id: u64,
    token: Address,
    total: i128,
    positions: Seq<Position>,
    n: int,
)
    requires
        pays_everyone(log, start, cx, invoice_id, token, total as int, positions),
        0 <= start,
        0 <= n <= positions.len(),
    ensures
        sent(log, cx.contract, start + 2 * n) == sent(log, cx.contract, start) + total_paid(
            positions.take(n),
            total,
        ),
    decreases n,
{
    if n > 0 {
        lemma_sent(log, start, cx, invoice_id, token, total, positions, n - 1);
        let p = positions[n - 1];
        assert(positions.take(n).drop_last() =~= positions.take(n - 1));
        assert(positions.take(n).last() == p);
        assert(log[start + 2 * (n - 1) + 1] is Publish);
        assert(sent(log, cx.contract, start + 2 * n) == sent(
            log,
            cx.contract,
            start + 2 * n - 1,
        ));
        assert(sent(log, cx.contract, start + 2 * n - 1) == sent(
            log,
            cx.contract,
            start + 2 * n - 2,
        ) + payout(p, total));
    }
}

/// No share is more than all of them.
proof fn lemma_shares_bounded(positions: Seq<Position>, i: int)
    requires
        0 <= i < positions.len(),
    ensures
        0 <= positions[i].share_bps <= total_shares(positions),
    decreases positions.len(),
{
    lemma_shares_not_negative(positions.drop_last());
    if i < positions.len() - 1 {
        lemma_shares_bounded(positions.drop_last(), i);
    }
}

proof fn lemma_shares_not_negative(positions: Seq<Position>)
    ensures
        total_shares(positions) >= 0,
    decreases positions.len(),
{
    if positions.len() > 0 {
        lemma_shares_not_negative(positions.drop_last());
    }
}

/// Payouts of shares that make up at most the whole are covered.
proof fn lemma_covered(positions: Seq<Position>, total: i128)
    requires
        total >= 0,
        computable(positions, total as int),
        total_shares(positions) <= 10_000,
    ensures
        total_paid(positions.take(positions.len() as int), total) <= total,
{
    assert(positions.take(positions.len() as int) =~= positions);
    lemma_computable(positions, total);
    assert forall|i: int| 0 <= i < positions.len() implies (#[trigger] positions[i]).share_bps
        <= 10_000 by {
        lemma_shares_bounded(positions, i);
    }
    payouts_are_covered(positions, total);
}

/// Where the shares make up at most the whole, a closing repayment by anybody
/// but the contract itself sends out no more than was repaid in all.
pub proof fn closing_repayment_is_covered(
    s: State,
    cx: Context,
    payer: Address,
    invoice_id: u64,
    token: Address,
    amount: i128,
)
    requires
        repay(s, cx, payer, invoice_id, token, amount).result is Ok,
        s.pools[invoice_id].face_value > 0,
        s.pools[invoice_id].repaid_amount + amount >= s.pools[invoice_id].face_value,
        payer != cx.contract,
        total_shares(held(s, invoice_id)) <= 10_000,
    ensures
        ({
            let log = repay(s, cx, payer, invoice_id, token, amount).log;
            sent(log, cx.contract, log.len() as int) <= s.pools[invoice_id].repaid_amount + amount
        }),
{
    let log = repay(s, cx, payer, invoice_id, token, amount).log;
    let positions = held(s, invoice_id);
    let n = positions.len() as int;
    let total = (s.pools[invoice_id].repaid_amount + amount) as i128;
    repaying_succeeds_exactly_when(s, cx, payer, invoice_id, token, amount);
    repaying_takes_the_payment(s, cx, payer, invoice_id, token, amount);
    closing_repayment_pays_everyone(s, cx, payer, invoice_id, token, amount);
    lemma_sent(log, 5, cx, invoice_id, token, total, positions, n);
    lemma_covered(positions, total);
    assert(sent(log, cx.contract, 0) == 0);
    assert(sent(log, cx.contract, 1) == 0);
    assert(sent(log, cx.contract, 2) == 0);
    assert(sent(log, cx.contract, 3) == 0);
    assert(sent(log, cx.contract, 4) == 0);
    assert(sent(log, cx.contract, 5) == 0);
    assert(log.last() == log[6 + 2 * n]);
    assert(sent(log, cx.contract, 6 + 2 * n) == sent(log, cx.contract, 5 + 2 * n));
    assert(sent(log, cx.contract, 7 + 2 * n) == sent(log, cx.contract, 6 + 2 * n));
}

/// Marking a default succeeds exactly when the admin asks, the protocol is not
/// paused, no repayment of the invoice is under way, its pool is there and
/// open, the payouts can be computed where something was repaid, and the
/// invoice contract is known. Neither way does the state change.
pub proof fn defaulting_succeeds_exactly_when(
    s: State,
    cx: Context,
    admin: Address,
    invoice_id: u64,
    token: Address,
)
    ensures
        ({
            let end = mark_default(s, cx, admin, invoice_id, token);
            let pool = s.pools[invoice_id];
            let asked = s.admin == Some(admin) && !cx.protocol_paused;
            let locked = s.repayment_locks.contains_key(invoice_id);
            let known = s.pools.contains_key(invoice_id);
            let open = asked && !locked && known && !pool.is_closed;
            let payable = pool.repaid_amount <= 0 || computable(
                held(s, invoice_id),
                pool.repaid_amount as int,
            );
            &&& end.result is Ok <==> open && payable && s.invoice_nft is Some
            &&& s.admin is None ==> end.result == Err::<(), KoraError>(KoraError::NotInitialized)
            &&& s.admin is Some && s.admin != Some(admin) ==> end.result == Err::<(), KoraError>(
                KoraError::NotAdmin,
            )
            &&& s.admin == Some(admin) && cx.protocol_paused ==> end.result == Err::<
                (),
                KoraError,
            >(KoraError::ProtocolPaused)
            &&& asked && locked ==> end.result == Err::<(), KoraError>(KoraError::Unauthorized)
            &&& asked && !locked && !known ==> end.result == Err::<(), KoraError>(
                KoraError::PoolNotFound,
            )
            &&& asked && !locked && known && pool.is_closed ==> end.result == Err::<(), KoraError>(
                KoraError::PoolAlreadyClosed,
            )
            &&& open && !payable ==> end.result == Err::<(), KoraError>(
                KoraError::ArithmeticOverflow,
            )
            &&& open && payable && s.invoice_nft is None ==> end.result == Err::<(), KoraError>(
                KoraError::NotInitialized,
            )
            &&& end.state == s
            &&& end.result is Err ==> asks_only(end.log, admin)
        }),
{
    lemma_computable(held(s, invoice_id), s.pools[invoice_id].repaid_amount);
    assert(held(s, invoice_id) == get_positions(s, invoice_id));
}

/// A default pays every position its share of what the pool has received, and
/// nobody where nothing was repaid. Then it reports the invoice as defaulted.
pub proof fn default_pays_everyone(
    s: State,
    cx: Context,
    admin: Address,
    invoice_id: u64,
    token: Address,
)
    requires
        mark_default(s, cx, admin, invoice_id, token).result is Ok,
    ensures
        ({
            let end = mark_default(s, cx, admin, invoice_id, token);
            let repaid = s.pools[invoice_id].repaid_amount as int;
            let positions = held(s, invoice_id);
            let n = if repaid > 0 {
                positions.len() as int
            } else {
                0
            };
            &&& end.log.len() == 3 + 2 * n
            &&& end.log[0] == Step::<Op, EventView>::RequireAuth(admin)
            &&& repaid > 0 ==> pays_everyone(end.log, 1, cx, invoice_id, token, repaid, positions)
            &&& end.log[1 + 2 * n] == Step::<Op, EventView>::Call(
                Call::SetDefaulted {
                    invoice_nft: s.invoice_nft->0,
                    caller: admin,
                    invoice_id,
                },
            )
            &&& end.log[2 + 2 * n] == Step::<Op, EventView>::Publish(
                EventView {
                    topic: Topic::InvDft,
                    shape: Shape::Tuple,
                    data: seq![
                        Value::U64(invoice_id),
                        Value::Address(admin),
                        Value::U64(cx.timestamp),
                    ],
                },
            )
        }),
{
    let end = mark_default(s, cx, admin, invoice_id, token);
    let repaid = s.pools[invoice_id].repaid_amount;
    let positions = held(s, invoice_id);
    assert(positions == get_positions(s, invoice_id));
    if repaid > 0 {
        defaulting_succeeds_exactly_when(s, cx, admin, invoice_id, token);
        lemma_computable(positions, repaid);
        every_position_is_paid_once(cx, invoice_id, token, repaid, positions);
        let steps = distribution(cx, invoice_id, token, repaid, positions);
        assert forall|k: int| 0 <= k < steps.len() implies end.log[1 + k]
            == #[trigger] steps[k] by {}
        lemma_steps_pay(end.log, 1, cx, invoice_id, token, repaid, positions);
    }
}

/// A default moves no money but the payouts, and none where nothing was repaid.
pub proof fn default_moves_nothing_else(
    s: State,
    cx: Context,
    admin: Address,
    invoice_id: u64,
    token: Address,
    k: int,
)
    requires
        mark_default(s, cx, admin, invoice_id, token).result is Ok,
        0 <= k < mark_default(s, cx, admin, invoice_id, token).log.len(),
    ensures
        transfers(mark_default(s, cx, admin, invoice_id, token).log[k]) <==> s.pools[
            invoice_id
        ].repaid_amount > 0 && exists|i: int|
            0 <= i < held(s, invoice_id).len() && k == #[trigger] (1 + 2 * i),
{
    let end = mark_default(s, cx, admin, invoice_id, token);
    let positions = held(s, invoice_id);
    let n = positions.len() as int;
    default_pays_everyone(s, cx, admin, invoice_id, token);
    if s.pools[invoice_id].repaid_amount > 0 {
        if 1 <= k < 1 + 2 * n {
            let i = (k - 1) / 2;
            let p = positions[i];
            assert(0 <= i < n);
            assert(k == 1 + 2 * i || k == 1 + 2 * i + 1);
        }
        assert forall|i: int| 0 <= i < n && k == #[trigger] (1 + 2 * i) implies transfers(
            end.log[k],
        ) by {
            let p = positions[i];
        }
    }
}

/// Where the shares make up at most the whole, a default sends out no more than
/// was repaid, and nothing where nothing was.
pub proof fn default_is_covered(
    s: State,
    cx: Context,
    admin: Address,
    invoice_id: u64,
    token: Address,
)
    requires
        mark_default(s, cx, admin, invoice_id, token).result is Ok,
        total_shares(held(s, invoice_id)) <= 10_000,
    ensures
        ({
            let log = mark_default(s, cx, admin, invoice_id, token).log;
            let repaid = s.pools[invoice_id].repaid_amount;
            let out = sent(log, cx.contract, log.len() as int);
            &&& repaid > 0 ==> out <= repaid
            &&& repaid <= 0 ==> out == 0
        }),
{
    let log = mark_default(s, cx, admin, invoice_id, token).log;
    let repaid = s.pools[invoice_id].repaid_amount;
    let positions = held(s, invoice_id);
    let n = if repaid > 0 {
        positions.len() as int
    } else {
        0
    };
    defaulting_succeeds_exactly_when(s, cx, admin, invoice_id, token);
    default_pays_everyone(s, cx, admin, invoice_id, token);
    assert(sent(log, cx.contract, 0) == 0);
    assert(sent(log, cx.contract, 1) == 0);
    if repaid > 0 {
        lemma_sent(log, 1, cx, invoice_id, token, repaid, positions, n);
        lemma_covered(positions, repaid);
    }
    assert(sent(log, cx.contract, 2 + 2 * n) == sent(log, cx.contract, 1 + 2 * n));
    assert(sent(log, cx.contract, 3 + 2 * n) == sent(log, cx.contract, 2 + 2 * n));
}

/// What is stored is what is read; a missing pool is an error, missing
/// positions are none.
pub proof fn reading(s: State, invoice_id: u64)
    ensures
        s.pools.contains_key(invoice_id) ==> get_pool(s, invoice_id) == Ok::<Pool, KoraError>(
            s.pools[invoice_id],
        ),
        !s.pools.contains_key(invoice_id) ==> get_pool(s, invoice_id) == Err::<Pool, KoraError>(
            KoraError::PoolNotFound,
        ),
        s.positions.contains_key(invoice_id) ==> get_positions(s, invoice_id)
            == s.positions[invoice_id],
        !s.positions.contains_key(invoice_id) ==> get_positions(s, invoice_id).len() == 0,
{
}

} // verus!
