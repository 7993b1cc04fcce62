//! The contract as a mathematical state machine.

use vstd::prelude::*;

use crate::financing_pool::{FinancingPoolContract, StoreOp, MAX_AMOUNT};
use crate::shared::errors::KoraError;
use crate::shared::events;
use crate::shared::host::{refused, Call, Context, EffectView, Outcome, Step};
use crate::shared::types::{Address, Pool, Position};
use crate::shared::validation::{fits, share_of, BPS_SCALE};

verus! {

/// What the contract stores.
#[verifier::ext_equal]
pub struct State {
    pub admin: Option<Address>,
    pub invoice_nft: Option<Address>,
    pub treasury: Option<Address>,
    pub access_control: Option<Address>,
    pub late_penalty_bps: Option<u32>,
    pub pools: Map<u64, Pool>,
    pub positions: Map<u64, Seq<Position>>,
    pub repayment_locks: Map<u64, bool>,
}

pub type Op = StoreOp<Seq<Position>>;

impl View for FinancingPoolContract {
    type V = State;

    open spec fn view(&self) -> State {
        State {
            admin: self.admin,
            invoice_nft: self.invoice_nft,
            treasury: self.treasury,
            access_control: self.access_control,
            late_penalty_bps: self.late_penalty_bps,
            pools: self.pools@,
            positions: self.positions@,
            repayment_locks: self.repayment_locks@,
        }
    }
}

pub open spec fn deployed() -> State {
    State {
        admin: None,
        invoice_nft: None,
        treasury: None,
        access_control: None,
        late_penalty_bps: None,
        pools: Map::empty(),
        positions: Map::empty(),
        repayment_locks: Map::empty(),
    }
}

/// What a storage step does to the state.
pub open spec fn apply(s: State, op: Op) -> State {
    match op {
        StoreOp::SetAdmin(admin) => State { admin: Some(admin), ..s },
        StoreOp::SetInvoiceNft(invoice_nft) => State { invoice_nft: Some(invoice_nft), ..s },
        StoreOp::SetTreasury(treasury) => State { treasury: Some(treasury), ..s },
        StoreOp::SetAccessControl(address) => State { access_control: Some(address), ..s },
        StoreOp::SetLatePenaltyBps(bps) => State { late_penalty_bps: Some(bps), ..s },
        StoreOp::SetPool(invoice_id, pool) => State {
            pools: s.pools.insert(invoice_id, pool),
            ..s
        },
        StoreOp::SetPositions(invoice_id, positions) => State {
            positions: s.positions.insert(invoice_id, positions),
            ..s
        },
        StoreOp::SetRepaymentLock(invoice_id) => State {
            repayment_locks: s.repayment_locks.insert(invoice_id, true),
            ..s
        },
        StoreOp::RemoveRepaymentLock(invoice_id) => State {
            repayment_locks: s.repayment_locks.remove(invoice_id),
            ..s
        },
    }
}

pub open spec fn stored(op: Op) -> EffectView<Op> {
    Step::Store(op)
}

pub open spec fn accepted_amount(amount: i128) -> bool {
    0 < amount <= MAX_AMOUNT
}

pub open spec fn get_pool(s: State, invoice_id: u64) -> Result<Pool, KoraError> {
    match s.pools.get(invoice_id) {
        Some(pool) => Ok(pool),
        None => Err(KoraError::PoolNotFound),
    }
}

pub open spec fn get_positions(s: State, invoice_id: u64) -> Seq<Position> {
    match s.positions.get(invoice_id) {
        Some(positions) => positions,
        None => Seq::empty(),
    }
}

/// Why a request that only the admin may make is refused to the caller.
pub open spec fn admin_error(s: State, caller: Address) -> Option<KoraError> {
    if s.admin is None {
        Some(KoraError::NotInitialized)
    } else if s.admin != Some(caller) {
        Some(KoraError::NotAdmin)
    } else {
        None
    }
}

pub open spec fn initialize(
    s: State,
    admin: Address,
    invoice_nft: Address,
    treasury: Address,
    access_control: Address,
    late_penalty_bps: u32,
) -> Outcome<State, Op, ()> {
    if s.admin is Some {
        Outcome { result: Err(KoraError::AlreadyInitialized), state: s, log: Seq::empty() }
    } else if late_penalty_bps > BPS_SCALE {
        Outcome { result: Err(KoraError::InvalidFeeRate), state: s, log: Seq::empty() }
    } else {
        Outcome {
            result: Ok(()),
            state: State {
                admin: Some(admin),
                invoice_nft: Some(invoice_nft),
                treasury: Some(treasury),
                access_control: Some(access_control),
                late_penalty_bps: Some(late_penalty_bps),
                ..s
            },
            log: seq![
                stored(StoreOp::SetAdmin(admin)),
                stored(StoreOp::SetInvoiceNft(invoice_nft)),
                stored(StoreOp::SetTreasury(treasury)),
                stored(StoreOp::SetAccessControl(access_control)),
                stored(StoreOp::SetLatePenaltyBps(late_penalty_bps)),
            ],
        }
    }
}

/// Why opening a pool is refused before the invoice is asked for.
pub open spec fn begin_release_funds_error(
    s: State,
    cx: Context,
    invoice_id: u64,
    token: Address,
) -> Option<KoraError> {
    if cx.protocol_paused {
        Some(KoraError::ProtocolPaused)
    } else if s.pools.contains_key(invoice_id) {
        Some(KoraError::PoolAlreadyClosed)
    } else if token == cx.contract {
        Some(KoraError::InvalidAddress)
    } else if s.invoice_nft is None {
        Some(KoraError::NotInitialized)
    } else {
        None
    }
}

pub open spec fn begin_release_funds(
    s: State,
    cx: Context,
    marketplace: Address,
    invoice_id: u64,
    token: Address,
) -> Outcome<State, Op, Address> {
    match begin_release_funds_error(s, cx, invoice_id, token) {
        Some(e) => refused(s, marketplace, e),
        None => Outcome {
            result: Ok(s.invoice_nft->0),
            state: s,
            log: seq![Step::RequireAuth(marketplace)],
        },
    }
}

/// Why opening a pool is refused once the invoice's amount is known.
pub open spec fn complete_release_funds_error(s: State, invoice_amount: i128) -> Option<KoraError> {
    if !accepted_amount(invoice_amount) {
        Some(KoraError::InvalidAmount)
    } else if s.late_penalty_bps is None {
        Some(KoraError::NotInitialized)
    } else {
        None
    }
}

/// A pool that was just opened.
pub open spec fn new_pool(
    invoice_id: u64,
    token: Address,
    face_value: i128,
    late_penalty_bps: u32,
) -> Pool {
    Pool {
        invoice_id,
        token,
        total_funded: 0,
        face_value,
        repaid_amount: 0,
        is_closed: false,
        late_penalty_bps,
    }
}

pub open spec fn complete_release_funds(
    s: State,
    cx: Context,
    invoice_nft: Address,
    marketplace: Address,
    invoice_id: u64,
    token: Address,
    invoice_amount: i128,
) -> Outcome<State, Op, ()> {
    match complete_release_funds_error(s, invoice_amount) {
        Some(e) => Outcome { result: Err(e), state: s, log: Seq::empty() },
        None => {
            let pool = new_pool(invoice_id, token, invoice_amount, s.late_penalty_bps->0);
            Outcome {
                result: Ok(()),
                state: State { pools: s.pools.insert(invoice_id, pool), ..s },
                log: seq![
                    stored(StoreOp::SetPool(invoice_id, pool)),
                    Step::Publish(events::pool_opened_event(cx, invoice_id, marketplace)),
                    Step::Call(
                        Call::SetFunded { invoice_nft, caller: cx.contract, invoice_id },
                    ),
                ],
            }
        },
    }
}

pub open spec fn release_funds(
    s: State,
    cx: Context,
    marketplace: Address,
    invoice_id: u64,
    token: Address,
    invoice_amount: i128,
) -> Outcome<State, Op, ()> {
    match begin_release_funds_error(s, cx, invoice_id, token) {
        Some(e) => refused(s, marketplace, e),
        None => {
            let second = complete_release_funds(
                s,
                cx,
                s.invoice_nft->0,
                marketplace,
                invoice_id,
                token,
                invoice_amount,
            );
            Outcome { log: seq![Step::RequireAuth(marketplace)] + second.log, ..second }
        },
    }
}

/// Why recording a position is refused.
pub open spec fn record_position_error(
    s: State,
    cx: Context,
    caller: Address,
    contributed: i128,
    total_pool: i128,
) -> Option<KoraError> {
    if admin_error(s, caller) is Some {
        admin_error(s, caller)
    } else if cx.protocol_paused {
        Some(KoraError::ProtocolPaused)
    } else if !accepted_amount(contributed) || !accepted_amount(total_pool) || contributed
        > total_pool {
        Some(KoraError::InvalidAmount)
    } else if !fits(contributed * BPS_SCALE) {
        Some(KoraError::ArithmeticOverflow)
    } else {
        None
    }
}

/// An investor's share of the pool, in basis points, rounded down.
pub open spec fn share_bps(contributed: i128, total_pool: i128) -> u32 {
    (contributed * BPS_SCALE / total_pool as int) as u32
}

pub open spec fn new_position(
    invoice_id: u64,
    investor: Address,
    contributed: i128,
    total_pool: i128,
) -> Position {
    Position {
        investor,
        invoice_id,
        contributed,
        share_bps: share_bps(contributed, total_pool),
        yield_claimed: 0,
    }
}

/// The positions of the investors before, the position, and the positions of
/// the investors after: an earlier position of the same investor is gone.
pub open spec fn with_position(positions: Seq<Position>, position: Position) -> Seq<Position> {
    positions.filter(|p: Position| p.investor.spec_precedes(position.investor)).push(position)
        + positions.filter(|p: Position| position.investor.spec_precedes(p.investor))
}

/// Whether a position can be recorded: the host keeps at most `u32::MAX` in one
/// pool. Where there are fewer, one more fits in any case.
pub open spec fn has_room(positions: Seq<Position>, position: Position) -> bool {
    positions.len() < u32::MAX || with_position(positions, position).len() <= u32::MAX
}

pub open spec fn record_position(
    s: State,
    cx: Context,
    caller: Address,
    invoice_id: u64,
    investor: Address,
    contributed: i128,
    total_pool: i128,
) -> Outcome<State, Op, ()> {
    match record_position_error(s, cx, caller, contributed, total_pool) {
        Some(e) => refused(s, caller, e),
        None => {
            let positions = with_position(
                get_positions(s, invoice_id),
                new_position(invoice_id, investor, contributed, total_pool),
            );
            Outcome {
                result: Ok(()),
                state: State { positions: s.positions.insert(invoice_id, positions), ..s },
                log: seq![
                    Step::RequireAuth(caller),
                    stored(StoreOp::SetPositions(invoice_id, positions)),
                    Step::Publish(
                        events::position_recorded_event(
                            cx,
                            invoice_id,
                            caller,
                            investor,
                            contributed,
                        ),
                    ),
                ],
            }
        },
    }
}

/// What a position is paid out of a repayment.
pub open spec fn payout(position: Position, total_repaid: i128) -> i128 {
    share_of(total_repaid as int, position.share_bps as int) as i128
}

pub open spec fn payouts(positions: Seq<Position>, total_repaid: i128) -> Seq<i128> {
    positions.map_values(|p: Position| payout(p, total_repaid))
}

/// Whether the payout and the gain of a position can be computed.
pub open spec fn position_payable(position: Position, total_repaid: i128) -> bool {
    fits(total_repaid * position.share_bps) && fits(
        share_of(total_repaid as int, position.share_bps as int) - position.contributed,
    )
}

pub open spec fn payable(positions: Seq<Position>, total_repaid: i128) -> bool {
    forall|i: int|
        0 <= i < positions.len() ==> position_payable(#[trigger] positions[i], total_repaid)
}

/// The steps that pay every position its part of a repayment, and tell the gain
/// over what was contributed.
pub open spec fn distribution(
    cx: Context,
    invoice_id: u64,
    token: Address,
    total_repaid: i128,
    positions: Seq<Position>,
) -> Seq<EffectView<Op>>
    decreases positions.len(),
{
    if positions.len() == 0 {
        Seq::empty()
    } else {
        let position = positions.last();
        let amount = payout(position, total_repaid);
        distribution(cx, invoice_id, token, total_repaid, positions.drop_last()) + seq![
            Step::Call(
                Call::Transfer { token, from: cx.contract, to: position.investor, amount },
            ),
            Step::Publish(
                events::yield_distributed_event(
                    invoice_id,
                    position.investor,
                    (amount - position.contributed) as i128,
                ),
            ),
        ]
    }
}

/// A pool after a repayment: it is closed once the face value is reached.
pub open spec fn repaid(pool: Pool, amount: i128) -> Pool {
    Pool {
        repaid_amount: (pool.repaid_amount + amount) as i128,
        is_closed: pool.repaid_amount + amount >= pool.face_value,
        ..pool
    }
}

/// Why a repayment is refused.
pub open spec fn repay_error(s: State, invoice_id: u64, amount: i128) -> Option<KoraError> {
    let pool = s.pools[invoice_id];
    if !accepted_amount(amount) {
        Some(KoraError::InvalidAmount)
    } else if s.repayment_locks.contains_key(invoice_id) {
        Some(KoraError::Unauthorized)
    } else if !s.pools.contains_key(invoice_id) {
        Some(KoraError::PoolNotFound)
    } else if pool.is_closed {
        Some(KoraError::RepaymentAlreadyMade)
    } else if !fits(pool.repaid_amount + amount) {
        Some(KoraError::ArithmeticOverflow)
    } else if !repaid(pool, amount).is_closed {
        None
    } else if !payable(get_positions(s, invoice_id), repaid(pool, amount).repaid_amount) {
        Some(KoraError::ArithmeticOverflow)
    } else if s.invoice_nft is None {
        Some(KoraError::NotInitialized)
    } else {
        None
    }
}

/// The steps that take a payment in: the lock and the new state of the pool are
/// stored before the money moves.
pub open spec fn receipt(
    cx: Context,
    payer: Address,
    invoice_id: u64,
    token: Address,
    amount: i128,
    pool: Pool,
) -> Seq<EffectView<Op>> {
    seq![
        stored(StoreOp::SetRepaymentLock(invoice_id)),
        stored(StoreOp::SetPool(invoice_id, pool)),
        Step::Call(Call::Transfer { token, from: payer, to: cx.contract, amount }),
        Step::Publish(events::repayment_made_event(invoice_id, payer, amount)),
    ]
}

pub open spec fn repay(
    s: State,
    cx: Context,
    payer: Address,
    invoice_id: u64,
    token: Address,
    amount: i128,
) -> Outcome<State, Op, ()> {
    match repay_error(s, invoice_id, amount) {
        Some(e) => refused(s, payer, e),
        None => {
            let pool = repaid(s.pools[invoice_id], amount);
            Outcome {
                result: Ok(()),
                state: State { pools: s.pools.insert(invoice_id, pool), ..s },
                log: seq![Step::RequireAuth(payer)] + receipt(
                    cx,
                    payer,
                    invoice_id,
                    token,
                    amount,
                    pool,
                ) + if pool.is_closed {
                    distribution(
                        cx,
                        invoice_id,
                        token,
                        pool.repaid_amount,
                        get_positions(s, invoice_id),
                    ).push(
                        Step::Call(
                            Call::SetRepaid {
                                invoice_nft: s.invoice_nft->0,
                                caller: cx.contract,
                                invoice_id,
                            },
                        ),
                    )
                } else {
                    Seq::empty()
                } + seq![stored(StoreOp::RemoveRepaymentLock(invoice_id))],
            }
        },
    }
}

/// Why marking a default is refused.
pub open spec fn mark_default_error(
    s: State,
    cx: Context,
    admin: Address,
    invoice_id: u64,
) -> Option<KoraError> {
    let pool = s.pools[invoice_id];
    if admin_error(s, admin) is Some {
        admin_error(s, admin)
    } else if cx.protocol_paused {
        Some(KoraError::ProtocolPaused)
    } else if s.repayment_locks.contains_key(invoice_id) {
        Some(KoraError::Unauthorized)
    } else if !s.pools.contains_key(invoice_id) {
        Some(KoraError::PoolNotFound)
    } else if pool.is_closed {
        Some(KoraError::PoolAlreadyClosed)
    } else if pool.repaid_amount > 0 && !payable(
        get_positions(s, invoice_id),
        pool.repaid_amount,
    ) {
        Some(KoraError::ArithmeticOverflow)
    } else if s.invoice_nft is None {
        Some(KoraError::NotInitialized)
    } else {
        None
    }
}

pub open spec fn mark_default(
    s: State,
    cx: Context,
    admin: Address,
    invoice_id: u64,
    token: Address,
) -> Outcome<State, Op, ()> {
    match mark_default_error(s, cx, admin, invoice_id) {
        Some(e) => refused(s, admin, e),
        None => {
            let repaid_amount = s.pools[invoice_id].repaid_amount;
            Outcome {
                result: Ok(()),
                state: s,
                log: seq![Step::RequireAuth(admin)] + if repaid_amount > 0 {
                    distribution(
                        cx,
                        invoice_id,
                        token,
                        repaid_amount,
                        get_positions(s, invoice_id),
                    )
                } else {
                    Seq::empty()
                } + seq![
                    Step::Call(
                        Call::SetDefaulted {
                            invoice_nft: s.invoice_nft->0,
                            caller: admin,
                            invoice_id,
                        },
                    ),
                    Step::Publish(events::invoice_defaulted_event(cx, invoice_id, admin)),
                ],
            }
        },
    }
}

/// A share is at most the whole.
pub proof fn lemma_share_bounds(contributed: i128, total_pool: i128)
    requires
        0 < contributed <= total_pool,
    ensures
        0 <= contributed * BPS_SCALE / total_pool as int <= BPS_SCALE,
        share_bps(contributed, total_pool) == contributed * BPS_SCALE / total_pool as int,
{
    let scaled = contributed * 10_000;
    let total = total_pool as int;
    assert(0 <= scaled / total <= 10_000) by (nonlinear_arith)
        requires
            0 <= scaled <= total * 10_000,
            total > 0,
    ;
}

/// Two filters that let nothing through together let through no more than there
/// is.
proof fn lemma_disjoint_filters<T>(s: Seq<T>, a: spec_fn(T) -> bool, b: spec_fn(T) -> bool)
    requires
        forall|x: T| !(#[trigger] a(x) && b(x)),
    ensures
        s.filter(a).len() + s.filter(b).len() <= s.len(),
    decreases s.len(),
{
    reveal(Seq::filter);
    if s.len() > 0 {
        lemma_disjoint_filters(s.drop_last(), a, b);
        assert(!(a(s.last()) && b(s.last())));
    }
}

/// Recording adds at most one position.
pub proof fn lemma_room(positions: Seq<Position>, position: Position)
    ensures
        with_position(positions, position).len() <= positions.len() + 1,
{
    let lower = |p: Position| p.investor.spec_precedes(position.investor);
    let upper = |p: Position| position.investor.spec_precedes(p.investor);
    assert forall|p: Position| !(#[trigger] lower(p) && upper(p)) by {}
    lemma_disjoint_filters(positions, lower, upper);
}

} // verus!
