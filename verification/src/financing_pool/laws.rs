//! What holds of the contract as a whole.

use vstd::prelude::*;

use crate::financing_pool::model::{
    self, deployed, distribution, get_pool, get_positions, initialize, lemma_share_bounds,
    mark_default, new_position, payable, payout, record_position, release_funds, repay, share_bps,
    with_position, Op, State,
};
use crate::financing_pool::{StoreOp, MAX_AMOUNT};
use crate::shared::errors::KoraError;
use crate::shared::events;
use crate::shared::events::EventView;
use crate::shared::host::{
    begins_with_authorization, lemma_first_steps, replay, Call, Context, EffectView, Outcome, Step,
};
use crate::shared::types::{Address, Pool, Position};
use crate::shared::validation::{fits, share_of, BPS_SCALE};

verus! {

/// A request that can change what the contract stores or move money;
/// `invoice_amount` is what the invoice contract reports for the invoice.
pub enum Request {
    Initialize {
        admin: Address,
        invoice_nft: Address,
        treasury: Address,
        access_control: Address,
        late_penalty_bps: u32,
    },
    ReleaseFunds { marketplace: Address, invoice_id: u64, token: Address, invoice_amount: i128 },
    RecordPosition {
        caller: Address,
        invoice_id: u64,
        investor: Address,
        contributed: i128,
        total_pool: i128,
    },
    Repay { payer: Address, invoice_id: u64, token: Address, amount: i128 },
    MarkDefault { admin: Address, invoice_id: u64, token: Address },
}

impl Request {
    /// Who makes the request: the one whose authorization it needs.
    pub open spec fn caller(self) -> Option<Address> {
        match self {
            Request::Initialize { .. } => None,
            Request::ReleaseFunds { marketplace, .. } => Some(marketplace),
            Request::RecordPosition { caller, .. } => Some(caller),
            Request::Repay { payer, .. } => Some(payer),
            Request::MarkDefault { admin, .. } => Some(admin),
        }
    }
}

/// How a request ends.
pub open spec fn perform(s: State, cx: Context, request: Request) -> Outcome<State, Op, ()> {
    match request {
        Request::Initialize {
            admin,
            invoice_nft,
            treasury,
            access_control,
            late_penalty_bps,
        } => initialize(s, admin, invoice_nft, treasury, access_control, late_penalty_bps),
        Request::ReleaseFunds { marketplace, invoice_id, token, invoice_amount } => release_funds(
            s,
            cx,
            marketplace,
            invoice_id,
            token,
            invoice_amount,
        ),
        Request::RecordPosition { caller, invoice_id, investor, contributed, total_pool } =>
            record_position(s, cx, caller, invoice_id, investor, contributed, total_pool),
        Request::Repay { payer, invoice_id, token, amount } => repay(
            s,
            cx,
            payer,
            invoice_id,
            token,
            amount,
        ),
        Request::MarkDefault { admin, invoice_id, token } => mark_default(
            s,
            cx,
            admin,
            invoice_id,
            token,
        ),
    }
}

/// The state of the contract after a history of requests.
pub open spec fn after(history: Seq<(Context, Request)>) -> State
    decreases history.len(),
{
    if history.len() == 0 {
        deployed()
    } else {
        perform(after(history.drop_last()), history.last().0, history.last().1).state
    }
}

/// A pool is closed exactly when its face value was paid back.
pub open spec fn sound_pool(invoice_id: u64, pool: Pool) -> bool {
    &&& pool.invoice_id == invoice_id
    &&& 0 < pool.face_value <= MAX_AMOUNT
    &&& 0 <= pool.repaid_amount
    &&& pool.is_closed <==> pool.repaid_amount >= pool.face_value
    &&& pool.late_penalty_bps <= BPS_SCALE
}

pub open spec fn sound_position(invoice_id: u64, position: Position) -> bool {
    &&& position.invoice_id == invoice_id
    &&& 0 < position.contributed <= MAX_AMOUNT
    &&& position.share_bps <= BPS_SCALE
}

/// In the order of the investors, and at most one position each.
pub open spec fn sorted(positions: Seq<Position>) -> bool {
    forall|i: int, j: int|
        0 <= i < j < positions.len() ==> (#[trigger] positions[i]).investor.spec_precedes(
            (#[trigger] positions[j]).investor,
        )
}

pub open spec fn sound_positions(invoice_id: u64, positions: Seq<Position>) -> bool {
    &&& sorted(positions)
    &&& forall|i: int|
        0 <= i < positions.len() ==> sound_position(invoice_id, #[trigger] positions[i])
}

/// Configured whole or not at all, no repayment under way, and sound entries.
pub open spec fn consistent(s: State) -> bool {
    &&& s.admin is Some <==> s.invoice_nft is Some
    &&& s.admin is Some <==> s.late_penalty_bps is Some
    &&& s.late_penalty_bps matches Some(bps) ==> bps <= BPS_SCALE
    &&& s.repayment_locks == Map::<u64, bool>::empty()
    &&& forall|id: u64| #[trigger] s.pools.contains_key(id) ==> sound_pool(id, s.pools[id])
    &&& forall|id: u64| #[trigger]
        s.positions.contains_key(id) ==> sound_positions(id, s.positions[id])
}

/// Filtering keeps the order.
proof fn lemma_filter_sorted(positions: Seq<Position>, keep: spec_fn(Position) -> bool)
    requires
        sorted(positions),
    ensures
        sorted(positions.filter(keep)),
        forall|i: int|
            0 <= i < positions.filter(keep).len() ==> keep(#[trigger] positions.filter(keep)[i])
                && positions.contains(positions.filter(keep)[i]),
    decreases positions.len(),
{
    reveal(Seq::filter);
    if positions.len() > 0 {
        let front = positions.drop_last();
        lemma_filter_sorted(front, keep);
        let kept = front.filter(keep);
        assert forall|i: int| 0 <= i < kept.len() implies positions.contains(#[trigger] kept[i])
            && kept[i].investor.spec_precedes(positions.last().investor) by {
            let k = choose|k: int| 0 <= k < front.len() && front[k] == kept[i];
            assert(positions[k] == kept[i]);
        }
        assert(positions.contains(positions.last()));
    }
}

/// A filter keeps whatever it is meant to keep.
proof fn lemma_filter_keeps(
    positions: Seq<Position>,
    keep: spec_fn(Position) -> bool,
    position: Position,
)
    requires
        positions.contains(position),
        keep(position),
    ensures
        positions.filter(keep).contains(position),
    decreases positions.len(),
{
    reveal(Seq::filter);
    let front = positions.drop_last();
    let k = choose|k: int| 0 <= k < positions.len() && positions[k] == position;
    if k == positions.len() - 1 {
        assert(positions.filter(keep).last() == position);
    } else {
        assert(front[k] == position);
        lemma_filter_keeps(front, keep, position);
        let kept = front.filter(keep);
        let m = choose|m: int| 0 <= m < kept.len() && kept[m] == position;
        assert(positions.filter(keep)[m] == position);
    }
}

/// Recording a position puts it among the others in the order of the
/// investors. It is the investor's only one, and the others' stay as they were.
pub proof fn recorded_position_takes_its_place(positions: Seq<Position>, position: Position)
    requires
        sorted(positions),
    ensures
        sorted(with_position(positions, position)),
        forall|p: Position| #[trigger]
            with_position(positions, position).contains(p) <==> p == position || (p.investor
                != position.investor && positions.contains(p)),
{
    let lower = |p: Position| p.investor.spec_precedes(position.investor);
    let upper = |p: Position| position.investor.spec_precedes(p.investor);
    lemma_filter_sorted(positions, lower);
    lemma_filter_sorted(positions, upper);
    let head = positions.filter(lower);
    let tail = positions.filter(upper);
    let all = with_position(positions, position);
    assert(all == head.push(position) + tail);
    assert forall|i: int, j: int| 0 <= i < j < all.len() implies (
    #[trigger] all[i]).investor.spec_precedes((#[trigger] all[j]).investor) by {
        if i < head.len() {
            assert(lower(head[i]));
        }
        if j > head.len() {
            assert(upper(tail[j - head.len() - 1]));
        }
        if i > head.len() {
            assert(tail[i - head.len() - 1] == all[i]);
        }
    }
    assert forall|p: Position| #[trigger] all.contains(p) implies p == position || (p.investor
        != position.investor && positions.contains(p)) by {
        let i = choose|i: int| 0 <= i < all.len() && all[i] == p;
        if i < head.len() {
            assert(lower(head[i]));
        } else if i > head.len() {
            assert(upper(tail[i - head.len() - 1]));
        }
    }
    assert forall|p: Position|
        p == position || (p.investor != position.investor && positions.contains(p)) implies (
    #[trigger] all.contains(p)) by {
        if p == position {
            assert(all[head.len() as int] == position);
        } else if lower(p) {
            lemma_filter_keeps(positions, lower, p);
            let m = choose|m: int| 0 <= m < head.len() && head[m] == p;
            assert(all[m] == p);
        } else {
            assert(upper(p));
            lemma_filter_keeps(positions, upper, p);
            let m = choose|m: int| 0 <= m < tail.len() && tail[m] == p;
            assert(all[head.len() + 1 + m] == p);
        }
    }
}

/// Every request keeps the contract consistent.
pub proof fn consistency_is_kept(s: State, cx: Context, request: Request)
    requires
        consistent(s),
    ensures
        consistent(perform(s, cx, request).state),
{
    let t = perform(s, cx, request).state;
    match request {
        Request::RecordPosition { caller, invoice_id, investor, contributed, total_pool } => {
            if perform(s, cx, request).result is Ok {
                let old = get_positions(s, invoice_id);
                let position = new_position(invoice_id, investor, contributed, total_pool);
                lemma_share_bounds(contributed, total_pool);
                assert(sound_positions(invoice_id, old));
                recorded_position_takes_its_place(old, position);
                let new = with_position(old, position);
                assert forall|i: int| 0 <= i < new.len() implies sound_position(
                    invoice_id,
                    #[trigger] new[i],
                ) by {
                    assert(new.contains(new[i]));
                    if new[i] != position {
                        let k = choose|k: int| 0 <= k < old.len() && old[k] == new[i];
                        assert(sound_position(invoice_id, old[k]));
                    }
                }
                assert(sound_positions(invoice_id, new));
            }
        },
        _ => {},
    }
}

/// The contract is consistent after every history of requests.
pub proof fn always_consistent(history: Seq<(Context, Request)>)
    ensures
        consistent(after(history)),
    decreases history.len(),
{
    if history.len() > 0 {
        always_consistent(history.drop_last());
        consistency_is_kept(after(history.drop_last()), history.last().0, history.last().1);
    }
}

/// A request that fails changes nothing.
pub proof fn failure_changes_nothing(s: State, cx: Context, request: Request)
    ensures
        perform(s, cx, request).result is Err ==> perform(s, cx, request).state == s,
{
}

/// The caller's authorization comes first: before anything is stored, published
/// or called, and also where the request is refused.
pub proof fn authorization_comes_first(s: State, cx: Context, request: Request)
    ensures
        request.caller() matches Some(caller) ==> begins_with_authorization(
            perform(s, cx, request).log,
            caller,
        ),
{
}

/// Positions are recorded and defaults are marked by the admin; anybody else is
/// refused and changes nothing.
pub proof fn admin_requests_are_refused_to_others(s: State, cx: Context, request: Request)
    requires
        request is RecordPosition || request is MarkDefault,
        s.admin is Some,
        s.admin != request.caller(),
    ensures
        perform(s, cx, request).result == Err::<(), KoraError>(KoraError::NotAdmin),
        perform(s, cx, request).state == s,
{
}

/// The configuration is set once: initializing again is refused, and no request
/// changes it.
pub proof fn configured_once(s: State, cx: Context, request: Request)
    requires
        s.admin is Some,
    ensures
        ({
            let end = perform(s, cx, request);
            &&& end.state.admin == s.admin && end.state.invoice_nft == s.invoice_nft
            &&& end.state.treasury == s.treasury && end.state.access_control == s.access_control
            &&& end.state.late_penalty_bps == s.late_penalty_bps
            &&& request is Initialize ==> end.result == Err::<(), KoraError>(
                KoraError::AlreadyInitialized,
            )
        }),
{
}

/// The steps that pay out a repayment come in pairs: for each position, in
/// order, the transfer of its payout and the event that tells its gain.
pub proof fn every_position_is_paid_once(
    cx: Context,
    invoice_id: u64,
    token: Address,
    total_repaid: i128,
    positions: Seq<Position>,
)
    requires
        payable(positions, total_repaid),
    ensures
        ({
            let steps = distribution(cx, invoice_id, token, total_repaid, positions);
            &&& steps.len() == 2 * positions.len()
            &&& forall|i: int|
                #![trigger positions[i]]
                0 <= i < positions.len() ==> steps[2 * i] == Step::<Op, EventView>::Call(
                    Call::Transfer {
                        token,
                        from: cx.contract,
                        to: positions[i].investor,
                        amount: payout(positions[i], total_repaid),
                    },
                ) && steps[2 * i + 1] == Step::<Op, EventView>::Publish(
                    events::yield_distributed_event(
                        invoice_id,
                        positions[i].investor,
                        (payout(positions[i], total_repaid) - positions[i].contributed) as i128,
                    ),
                )
        }),
    decreases positions.len(),
{
    if positions.len() > 0 {
        let front = positions.drop_last();
        assert forall|i: int| 0 <= i < front.len() implies model::position_payable(
            #[trigger] front[i],
            total_repaid,
        ) by {
            assert(positions[i] == front[i]);
        }
        every_position_is_paid_once(cx, invoice_id, token, total_repaid, front);
        assert forall|i: int| 0 <= i < front.len() implies positions[i] == front[i] by {}
    }
}

/// Paying out stores nothing.
proof fn lemma_distribution_stores_nothing(
    cx: Context,
    invoice_id: u64,
    token: Address,
    total_repaid: i128,
    positions: Seq<Position>,
)
    ensures
        forall|i: int|
            0 <= i < distribution(cx, invoice_id, token, total_repaid, positions).len() ==> !(
            #[trigger] distribution(cx, invoice_id, token, total_repaid, positions)[i] is Store),
    decreases positions.len(),
{
    if positions.len() > 0 {
        lemma_distribution_stores_nothing(
            cx,
            invoice_id,
            token,
            total_repaid,
            positions.drop_last(),
        );
    }
}

/// The state that the first `n` steps of a log lead to.
pub open spec fn replayed(s: State, log: Seq<EffectView<Op>>, n: int) -> State {
    replay(|t: State, op: Op| model::apply(t, op), s, log, n)
}

/// Steps that store nothing change nothing.
proof fn lemma_quiet_steps(s: State, log: Seq<EffectView<Op>>, m: int, n: int)
    requires
        0 <= m <= n <= log.len(),
        forall|i: int| m <= i < n ==> !(#[trigger] log[i] is Store),
    ensures
        replayed(s, log, n) == replayed(s, log, m),
    decreases n,
{
    if m < n {
        lemma_quiet_steps(s, log, m, n - 1);
        assert(!(log[n - 1] is Store));
    }
}

/// The steps of a repayment: the lock is taken and the pool stored, then comes
/// what stores nothing, and last the lock is released.
#[verifier::rlimit(40)]
proof fn lemma_repay_steps(
    s: State,
    cx: Context,
    payer: Address,
    invoice_id: u64,
    token: Address,
    amount: i128,
)
    requires
        repay(s, cx, payer, invoice_id, token, amount).result is Ok,
    ensures
        ({
            let end = repay(s, cx, payer, invoice_id, token, amount);
            let log = end.log;
            let held = State {
                pools: end.state.pools,
                repayment_locks: s.repayment_locks.insert(invoice_id, true),
                ..s
            };
            &&& log.len() >= 6
            &&& forall|i: int| 0 <= i < 3 ==> !(#[trigger] log[i] is Call)
            &&& forall|i: int| 3 <= i < log.len() - 1 ==> !(#[trigger] log[i] is Store)
            &&& forall|i: int| 3 <= i < log.len() ==> #[trigger] replayed(s, log, i) == held
            &&& !(log.last() is Call)
            &&& replayed(s, log, log.len() as int) == end.state
        }),
{
    let end = repay(s, cx, payer, invoice_id, token, amount);
    let log = end.log;
    let pool = end.state.pools[invoice_id];
    let steps = distribution(
        cx,
        invoice_id,
        token,
        pool.repaid_amount,
        get_positions(s, invoice_id),
    );
    lemma_distribution_stores_nothing(
        cx,
        invoice_id,
        token,
        pool.repaid_amount,
        get_positions(s, invoice_id),
    );
    let k = log.len() - 1;
    assert forall|i: int| 3 <= i < k implies !(#[trigger] log[i] is Store) by {
        if pool.is_closed && 5 <= i < 5 + steps.len() {
            assert(log[i] == steps[i - 5]);
        }
    }
    lemma_first_steps(|t: State, op: Op| model::apply(t, op), s, log);
    assert(replayed(s, log, 1) == s);
    assert(log[1] == model::stored(StoreOp::SetRepaymentLock(invoice_id)));
    assert(log[2] == model::stored(StoreOp::SetPool(invoice_id, pool)));
    let held = State {
        pools: end.state.pools,
        repayment_locks: s.repayment_locks.insert(invoice_id, true),
        ..s
    };
    assert(replayed(s, log, 3) == held);
    assert forall|i: int| 3 <= i < log.len() implies #[trigger] replayed(s, log, i) == held by {
        lemma_quiet_steps(s, log, 3, i);
    }
    assert(log[k] == model::stored(
        StoreOp::RemoveRepaymentLock(invoice_id),
    ));
    assert(s.repayment_locks.insert(invoice_id, true).remove(invoice_id) =~= s.repayment_locks);
    assert(replayed(s, log, k) == held);
    assert(replayed(s, log, k + 1) == end.state);
}

/// The storage steps that a request asks for lead to the state it ends in.
#[verifier::rlimit(40)]
pub proof fn steps_lead_to_the_state(s: State, cx: Context, request: Request)
    ensures
        replayed(s, perform(s, cx, request).log, perform(s, cx, request).log.len() as int)
            == perform(s, cx, request).state,
{
    let end = perform(s, cx, request);
    let f = |t: State, op: Op| model::apply(t, op);
    lemma_first_steps(f, s, end.log);
    match request {
        Request::Repay { payer, invoice_id, token, amount } => {
            if end.result is Ok {
                lemma_repay_steps(s, cx, payer, invoice_id, token, amount);
            }
        },
        Request::MarkDefault { admin, invoice_id, token } => {
            if end.result is Ok {
                let total = s.pools[invoice_id].repaid_amount;
                let steps = distribution(
                    cx,
                    invoice_id,
                    token,
                    total,
                    get_positions(s, invoice_id),
                );
                lemma_distribution_stores_nothing(
                    cx,
                    invoice_id,
                    token,
                    total,
                    get_positions(s, invoice_id),
                );
                assert forall|i: int| 0 <= i < end.log.len() implies !(
                #[trigger] end.log[i] is Store) by {
                    if total > 0 && 1 <= i < 1 + steps.len() {
                        assert(end.log[i] == steps[i - 1]);
                    }
                }
                lemma_quiet_steps(s, end.log, 0, end.log.len() as int);
            }
        },
        Request::Initialize { .. } => {},
        Request::ReleaseFunds { .. } => {},
        Request::RecordPosition { .. } => {},
    }
}

/// Whenever a repayment calls another contract the invoice's lock is held and
/// the pool is already stored as it will be: the state is up to date before
/// money moves.
pub proof fn money_moves_under_the_lock(
    s: State,
    cx: Context,
    payer: Address,
    invoice_id: u64,
    token: Address,
    amount: i128,
    i: int,
)
    requires
        0 <= i < repay(s, cx, payer, invoice_id, token, amount).log.len(),
        repay(s, cx, payer, invoice_id, token, amount).log[i] is Call,
    ensures
        ({
            let end = repay(s, cx, payer, invoice_id, token, amount);
            let then = replayed(s, end.log, i);
            &&& then.repayment_locks.contains_key(invoice_id)
            &&& then.pools == end.state.pools
        }),
{
    if repay(s, cx, payer, invoice_id, token, amount).result is Ok {
        lemma_repay_steps(s, cx, payer, invoice_id, token, amount);
    }
}

/// While a repayment of an invoice is under way, neither another repayment of
/// it nor a default can be entered.
pub proof fn no_reentry(
    s: State,
    cx: Context,
    who: Address,
    invoice_id: u64,
    token: Address,
    amount: i128,
)
    requires
        s.repayment_locks.contains_key(invoice_id),
    ensures
        repay(s, cx, who, invoice_id, token, amount).result is Err,
        model::accepted_amount(amount) ==> repay(s, cx, who, invoice_id, token, amount).result
            == Err::<(), KoraError>(KoraError::Unauthorized),
        mark_default(s, cx, who, invoice_id, token).result is Err,
        s.admin == Some(who) && !cx.protocol_paused ==> mark_default(
            s,
            cx,
            who,
            invoice_id,
            token,
        ).result == Err::<(), KoraError>(KoraError::Unauthorized),
{
}

/// A pool is opened at most once, empty and with the invoice's amount as its
/// face value; it never goes away, and its terms never change.
pub proof fn pool_is_opened_once(
    s: State,
    cx: Context,
    marketplace: Address,
    invoice_id: u64,
    token: Address,
    invoice_amount: i128,
    later: Context,
    request: Request,
)
    ensures
        release_funds(s, cx, marketplace, invoice_id, token, invoice_amount).result is Ok ==> {
            let t = release_funds(s, cx, marketplace, invoice_id, token, invoice_amount).state;
            &&& !s.pools.contains_key(invoice_id)
            &&& get_pool(t, invoice_id) == Ok::<Pool, KoraError>(
                model::new_pool(invoice_id, token, invoice_amount, s.late_penalty_bps->0),
            )
        },
        s.pools.contains_key(invoice_id) ==> {
            let end = perform(s, later, request);
            let old = s.pools[invoice_id];
            &&& end.state.pools.contains_key(invoice_id)
            &&& end.state.pools[invoice_id] == (Pool {
                repaid_amount: end.state.pools[invoice_id].repaid_amount,
                is_closed: end.state.pools[invoice_id].is_closed,
                ..old
            })
            &&& !later.protocol_paused && (request matches Request::ReleaseFunds {
                invoice_id: id,
                ..
            } && id == invoice_id) ==> end.result == Err::<(), KoraError>(
                KoraError::PoolAlreadyClosed,
            )
        },
{
}

/// A repayment adds exactly its amount to what was repaid, and closes the pool
/// exactly when the face value is reached; then, and only then, the invoice is
/// marked as repaid.
pub proof fn repayment_adds_up(
    s: State,
    cx: Context,
    payer: Address,
    invoice_id: u64,
    token: Address,
    amount: i128,
)
    requires
        consistent(s),
        repay(s, cx, payer, invoice_id, token, amount).result is Ok,
    ensures
        ({
            let end = repay(s, cx, payer, invoice_id, token, amount);
            let old = s.pools[invoice_id];
            let new = end.state.pools[invoice_id];
            let marked = Step::<Op, EventView>::Call(
                Call::SetRepaid {
                    invoice_nft: s.invoice_nft->0,
                    caller: cx.contract,
                    invoice_id,
                },
            );
            &&& new.repaid_amount == old.repaid_amount + amount
            &&& !old.is_closed
            &&& new.is_closed <==> new.repaid_amount >= new.face_value
            &&& end.log[3] == Step::<Op, EventView>::Call(
                Call::Transfer { token, from: payer, to: cx.contract, amount },
            )
            &&& end.log.contains(marked) <==> new.is_closed
        }),
{
    let end = repay(s, cx, payer, invoice_id, token, amount);
    let new = end.state.pools[invoice_id];
    if new.is_closed {
        assert(end.log[end.log.len() - 2] is Call);
    }
}

/// A closed pool is final: nothing changes it, no repayment is taken and no
/// default can be marked.
pub proof fn closed_pool_is_final(
    s: State,
    cx: Context,
    request: Request,
    invoice_id: u64,
    token: Address,
    who: Address,
    amount: i128,
)
    requires
        consistent(s),
        s.pools.contains_key(invoice_id),
        s.pools[invoice_id].is_closed,
    ensures
        perform(s, cx, request).state.pools[invoice_id] == s.pools[invoice_id],
        model::accepted_amount(amount) ==> repay(s, cx, who, invoice_id, token, amount).result
            == Err::<(), KoraError>(KoraError::RepaymentAlreadyMade),
        s.admin == Some(who) && !cx.protocol_paused ==> mark_default(
            s,
            cx,
            who,
            invoice_id,
            token,
        ).result == Err::<(), KoraError>(KoraError::PoolAlreadyClosed),
{
}

/// What was repaid on an invoice in a history: the sum of all repayments that
/// were accepted.
pub open spec fn paid_back(history: Seq<(Context, Request)>, invoice_id: u64) -> int
    decreases history.len(),
{
    if history.len() == 0 {
        0
    } else {
        let earlier = history.drop_last();
        let end = perform(after(earlier), history.last().0, history.last().1);
        paid_back(earlier, invoice_id) + match history.last().1 {
            Request::Repay { invoice_id: id, amount, .. } => if id == invoice_id
                && end.result is Ok {
                amount as int
            } else {
                0
            },
            _ => 0,
        }
    }
}

/// The repaid amount of a pool is the sum of the repayments that were accepted
/// for it.
pub proof fn repaid_amount_is_what_was_paid_back(
    history: Seq<(Context, Request)>,
    invoice_id: u64,
)
    ensures
        after(history).pools.contains_key(invoice_id) ==> after(
            history,
        ).pools[invoice_id].repaid_amount == paid_back(history, invoice_id),
        !after(history).pools.contains_key(invoice_id) ==> paid_back(history, invoice_id) == 0,
    decreases history.len(),
{
    if history.len() > 0 {
        repaid_amount_is_what_was_paid_back(history.drop_last(), invoice_id);
        always_consistent(history.drop_last());
    }
}

/// A request about one invoice leaves the pools and positions of all others
/// alone.
pub proof fn other_pools_are_untouched(s: State, cx: Context, request: Request, other: u64)
    requires
        match request {
            Request::ReleaseFunds { invoice_id, .. } => invoice_id != other,
            Request::RecordPosition { invoice_id, .. } => invoice_id != other,
            Request::Repay { invoice_id, .. } => invoice_id != other,
            Request::MarkDefault { invoice_id, .. } => invoice_id != other,
            _ => true,
        },
    ensures
        perform(s, cx, request).state.pools.get(other) == s.pools.get(other),
        get_positions(perform(s, cx, request).state, other) == get_positions(s, other),
{
}

/// Whether the protocol is paused makes no difference for what a payout asks
/// for.
proof fn lemma_distribution_ignores_pause(
    cx: Context,
    invoice_id: u64,
    token: Address,
    total_repaid: i128,
    positions: Seq<Position>,
    paused: bool,
)
    ensures
        distribution(cx, invoice_id, token, total_repaid, positions) == distribution(
            Context { protocol_paused: paused, ..cx },
            invoice_id,
            token,
            total_repaid,
            positions,
        ),
    decreases positions.len(),
{
    if positions.len() > 0 {
        lemma_distribution_ignores_pause(
            cx,
            invoice_id,
            token,
            total_repaid,
            positions.drop_last(),
            paused,
        );
    }
}

/// Repayments bypass the pause: a repayment ends the same way and asks for the
/// same steps whether or not the protocol is paused.
pub proof fn repayment_bypasses_the_pause(
    s: State,
    cx: Context,
    payer: Address,
    invoice_id: u64,
    token: Address,
    amount: i128,
    paused: bool,
)
    ensures
        repay(s, cx, payer, invoice_id, token, amount) == repay(
            s,
            Context { protocol_paused: paused, ..cx },
            payer,
            invoice_id,
            token,
            amount,
        ),
{
    lemma_distribution_ignores_pause(
        cx,
        invoice_id,
        token,
        model::repaid(s.pools[invoice_id], amount).repaid_amount,
        get_positions(s, invoice_id),
        paused,
    );
}

/// While the protocol is paused no pool is opened, no position is recorded and
/// no default is marked.
pub proof fn pause_stops_all_but_repayment(s: State, cx: Context, request: Request)
    requires
        cx.protocol_paused,
        request.caller() is Some,
        !(request is Repay),
    ensures
        perform(s, cx, request).result is Err,
        perform(s, cx, request).state == s,
        request is ReleaseFunds || s.admin == request.caller() ==> perform(s, cx, request).result
            == Err::<(), KoraError>(KoraError::ProtocolPaused),
{
}

/// Marking a default changes nothing in the pool itself.
pub proof fn default_keeps_the_books(
    s: State,
    cx: Context,
    admin: Address,
    invoice_id: u64,
    token: Address,
)
    ensures
        mark_default(s, cx, admin, invoice_id, token).state == s,
{
}

pub open spec fn total_shares(positions: Seq<Position>) -> int
    decreases positions.len(),
{
    if positions.len() == 0 {
        0
    } else {
        total_shares(positions.drop_last()) + positions.last().share_bps
    }
}

pub open spec fn total_contributed(positions: Seq<Position>) -> int
    decreases positions.len(),
{
    if positions.len() == 0 {
        0
    } else {
        total_contributed(positions.drop_last()) + positions.last().contributed
    }
}

/// The sum of all payouts.
pub open spec fn total_paid(positions: Seq<Position>, total_repaid: i128) -> int
    decreases positions.len(),
{
    if positions.len() == 0 {
        0
    } else {
        total_paid(positions.drop_last(), total_repaid) + payout(positions.last(), total_repaid)
    }
}

/// Each payout is the position's share of what was repaid, rounded down, and
/// is neither negative nor more than was repaid.
pub proof fn payout_is_the_share(position: Position, total_repaid: i128)
    requires
        total_repaid >= 0,
        position.share_bps <= BPS_SCALE,
        fits(total_repaid * position.share_bps),
    ensures
        payout(position, total_repaid) == total_repaid * position.share_bps / BPS_SCALE as int,
        0 <= payout(position, total_repaid) <= total_repaid,
{
    let product = total_repaid * position.share_bps;
    assert(0 <= product <= total_repaid * 10_000) by (nonlinear_arith)
        requires
            product == total_repaid * position.share_bps,
            total_repaid >= 0,
            position.share_bps <= 10_000,
    ;
    assert(share_of(total_repaid as int, position.share_bps as int) == product / 10_000);
}

proof fn lemma_paid_in_proportion(positions: Seq<Position>, total_repaid: i128)
    requires
        total_repaid >= 0,
        payable(positions, total_repaid),
        forall|i: int| 0 <= i < positions.len() ==> (#[trigger] positions[i]).share_bps
            <= BPS_SCALE,
    ensures
        10_000 * total_paid(positions, total_repaid) <= total_repaid * total_shares(positions),
    decreases positions.len(),
{
    if positions.len() == 0 {
        assert(total_repaid * 0 == 0) by (nonlinear_arith);
    } else {
        let front = positions.drop_last();
        let last = positions.last();
        assert forall|i: int| 0 <= i < front.len() implies model::position_payable(
            #[trigger] front[i],
            total_repaid,
        ) && front[i].share_bps <= BPS_SCALE by {
            assert(positions[i] == front[i]);
        }
        lemma_paid_in_proportion(front, total_repaid);
        assert(model::position_payable(positions[positions.len() - 1], total_repaid));
        payout_is_the_share(last, total_repaid);
        let product = total_repaid * last.share_bps;
        assert(10_000 * (product / 10_000) <= product) by (nonlinear_arith);
        assert(total_repaid * (total_shares(front) + last.share_bps) == total_repaid * total_shares(
            front,
        ) + total_repaid * last.share_bps) by (nonlinear_arith);
    }
}

/// A payout never spends more than was repaid, as long as the shares make up at
/// most the whole.
pub proof fn payouts_are_covered(positions: Seq<Position>, total_repaid: i128)
    requires
        total_repaid >= 0,
        payable(positions, total_repaid),
        forall|i: int| 0 <= i < positions.len() ==> (#[trigger] positions[i]).share_bps
            <= BPS_SCALE,
        total_shares(positions) <= BPS_SCALE,
    ensures
        total_paid(positions, total_repaid) <= total_repaid,
{
    lemma_paid_in_proportion(positions, total_repaid);
    assert(total_repaid * total_shares(positions) <= total_repaid * 10_000) by (nonlinear_arith)
        requires
            total_repaid >= 0,
            total_shares(positions) <= 10_000,
    ;
}

proof fn lemma_shares_in_proportion(positions: Seq<Position>, total_pool: i128)
    requires
        total_pool > 0,
        forall|i: int|
            0 <= i < positions.len() ==> 0 < (#[trigger] positions[i]).contributed <= total_pool
                && positions[i].share_bps == share_bps(positions[i].contributed, total_pool),
    ensures
        total_pool * total_shares(positions) <= 10_000 * total_contributed(positions),
    decreases positions.len(),
{
    if positions.len() == 0 {
        assert(total_pool * 0 == 0) by (nonlinear_arith);
    } else {
        let front = positions.drop_last();
        let last = positions[positions.len() - 1];
        assert forall|i: int| 0 <= i < front.len() implies 0 < (#[trigger] front[i]).contributed
            <= total_pool && front[i].share_bps == share_bps(
            front[i].contributed,
            total_pool,
        ) by {
            assert(positions[i] == front[i]);
        }
        lemma_shares_in_proportion(front, total_pool);
        lemma_share_bounds(last.contributed, total_pool);
        let scaled = last.contributed * 10_000;
        let share = last.share_bps as int;
        let total = total_pool as int;
        assert(total * share <= scaled) by (nonlinear_arith)
            requires
                total > 0,
                share == scaled / total,
        ;
        assert(total_pool * (total_shares(front) + share) == total_pool * total_shares(front)
            + total_pool * share) by (nonlinear_arith);
    }
}

/// Where all positions were recorded against the same pool size and together
/// contribute at most that, their shares make up at most the whole.
pub proof fn shares_make_up_at_most_the_whole(positions: Seq<Position>, total_pool: i128)
    requires
        total_pool > 0,
        forall|i: int|
            0 <= i < positions.len() ==> 0 < (#[trigger] positions[i]).contributed <= total_pool
                && positions[i].share_bps == share_bps(positions[i].contributed, total_pool),
        total_contributed(positions) <= total_pool,
    ensures
        total_shares(positions) <= BPS_SCALE,
{
    lemma_shares_in_proportion(positions, total_pool);
    assert(total_shares(positions) <= 10_000) by (nonlinear_arith)
        requires
            total_pool > 0,
            total_pool * total_shares(positions) <= 10_000 * total_contributed(positions),
            total_contributed(positions) <= total_pool,
    ;
}

/// Paying out the investors of one pool never spends more than was repaid: all
/// positions were recorded against the same pool size and together contribute
/// at most that.
pub proof fn investors_of_one_pool_are_covered(
    positions: Seq<Position>,
    total_pool: i128,
    total_repaid: i128,
)
    requires
        total_pool > 0,
        forall|i: int|
            0 <= i < positions.len() ==> 0 < (#[trigger] positions[i]).contributed <= total_pool
                && positions[i].share_bps == share_bps(positions[i].contributed, total_pool),
        total_contributed(positions) <= total_pool,
        total_repaid >= 0,
        payable(positions, total_repaid),
    ensures
        total_paid(positions, total_repaid) <= total_repaid,
{
    shares_make_up_at_most_the_whole(positions, total_pool);
    assert forall|i: int| 0 <= i < positions.len() implies (#[trigger] positions[i]).share_bps
        <= BPS_SCALE by {
        lemma_share_bounds(positions[i].contributed, total_pool);
    }
    payouts_are_covered(positions, total_repaid);
}

/// A position's share is what it contributed to the pool, in basis points and
/// rounded down; the whole pool is the whole.
pub proof fn share_is_the_contribution(contributed: i128, total_pool: i128)
    requires
        0 < contributed <= total_pool,
    ensures
        share_bps(contributed, total_pool) == contributed * BPS_SCALE / total_pool as int,
        share_bps(contributed, total_pool) <= BPS_SCALE,
        share_bps(total_pool, total_pool) == BPS_SCALE,
{
    lemma_share_bounds(contributed, total_pool);
    lemma_share_bounds(total_pool, total_pool);
    let total = total_pool as int;
    assert(total * 10_000 / total == 10_000) by (nonlinear_arith)
        requires
            total > 0,
    ;
}

/// Whether two states agree on the configuration and on every entry of an
/// invoice.
pub open spec fn agree(s: State, t: State, invoice_id: u64) -> bool {
    &&& s.admin == t.admin && s.invoice_nft == t.invoice_nft
    &&& s.late_penalty_bps == t.late_penalty_bps
    &&& s.pools.get(invoice_id) == t.pools.get(invoice_id)
    &&& s.positions.get(invoice_id) == t.positions.get(invoice_id)
    &&& s.repayment_locks.get(invoice_id) == t.repayment_locks.get(invoice_id)
}

/// A request depends on nothing but the configuration and the entries of the
/// invoice it names: where these are the same it ends the same way and asks for
/// the same steps.
pub proof fn only_named_entries_matter(s: State, t: State, cx: Context, request: Request)
    requires
        match request {
            Request::Initialize { .. } => s.admin == t.admin,
            Request::ReleaseFunds { invoice_id, .. } => agree(s, t, invoice_id),
            Request::RecordPosition { invoice_id, .. } => agree(s, t, invoice_id),
            Request::Repay { invoice_id, .. } => agree(s, t, invoice_id),
            Request::MarkDefault { invoice_id, .. } => agree(s, t, invoice_id),
        },
    ensures
        perform(s, cx, request).result == perform(t, cx, request).result,
        perform(s, cx, request).log == perform(t, cx, request).log,
{
}

} // verus!
