//! What holds across the contracts.

use vstd::prelude::*;

use crate::access_control;
use crate::financing_pool;
use crate::marketplace;
use crate::shared::errors::KoraError;
use crate::shared::events::EventView;
use crate::shared::host::{Call, Context, Step};
use crate::shared::types::{Address, Pool};

verus! {

/// One pause for the whole protocol: once the admin has paused it, and for as
/// long as the contracts are told so, the marketplace serves no request and the
/// pool none but repayments, which end as if there were no pause.
pub proof fn pause_is_protocol_wide(
    access: access_control::model::State,
    before: Context,
    admin: Address,
    cx: Context,
    market: marketplace::model::State,
    market_request: marketplace::laws::Request,
    pool: financing_pool::model::State,
    pool_request: financing_pool::laws::Request,
)
    requires
        access_control::model::pause(access, before, admin).result is Ok,
        cx.protocol_paused == access_control::model::pause(access, before, admin).state.paused,
        market_request.caller() is Some,
        pool_request.caller() is Some,
    ensures
        marketplace::laws::perform(market, cx, market_request).result == Err::<(), KoraError>(
            KoraError::ProtocolPaused,
        ),
        marketplace::laws::perform(market, cx, market_request).state == market,
        !(pool_request is Repay) ==> financing_pool::laws::perform(pool, cx, pool_request).result
            is Err && financing_pool::laws::perform(pool, cx, pool_request).state == pool,
        pool_request is Repay ==> financing_pool::laws::perform(pool, cx, pool_request)
            == financing_pool::laws::perform(
            pool,
            Context { protocol_paused: false, ..cx },
            pool_request,
        ),
{
    marketplace::laws::pause_stops_every_request(market, cx, market_request);
    match pool_request {
        financing_pool::laws::Request::Repay { payer, invoice_id, token, amount } => {
            financing_pool::laws::repayment_bypasses_the_pause(
                pool,
                cx,
                payer,
                invoice_id,
                token,
                amount,
                false,
            );
        },
        _ => {
            financing_pool::laws::pause_stops_all_but_repayment(pool, cx, pool_request);
        },
    }
}

/// From listing to pool: the contribution that reaches the asking price ends
/// with the marketplace's call for the release of the funds, and a pool
/// contract that is set up serves that call by opening the invoice's pool, in
/// the token of the listing and with the invoice's amount as its face value.
pub proof fn funded_invoice_gets_its_pool(
    market: marketplace::model::State,
    cx: Context,
    investor: Address,
    invoice_id: u64,
    amount: i128,
    pool: financing_pool::model::State,
    pool_cx: Context,
    invoice_amount: i128,
)
    requires
        marketplace::laws::consistent(market),
        marketplace::model::fund_invoice(market, cx, investor, invoice_id, amount).result is Ok,
        amount == marketplace::model::remaining(market.listings[invoice_id]),
        financing_pool::laws::consistent(pool),
        pool.admin is Some,
        !pool.pools.contains_key(invoice_id),
        !pool_cx.protocol_paused,
        pool_cx.contract != market.listings[invoice_id].token,
        financing_pool::model::accepted_amount(invoice_amount),
    ensures
        ({
            let funded = marketplace::model::fund_invoice(
                market,
                cx,
                investor,
                invoice_id,
                amount,
            );
            let token = market.listings[invoice_id].token;
            let opened = financing_pool::model::release_funds(
                pool,
                pool_cx,
                cx.contract,
                invoice_id,
                token,
                invoice_amount,
            );
            &&& funded.log.last() == Step::<marketplace::StoreOp, EventView>::Call(
                Call::ReleaseFunds {
                    pool: market.financing_pool->0,
                    marketplace: cx.contract,
                    invoice_id,
                    token,
                },
            )
            &&& opened.result is Ok
            &&& financing_pool::model::get_pool(opened.state, invoice_id) == Ok::<Pool, KoraError>(
                (Pool {
                    invoice_id,
                    token,
                    total_funded: 0,
                    face_value: invoice_amount,
                    repaid_amount: 0,
                    is_closed: false,
                    late_penalty_bps: pool.late_penalty_bps->0,
                }),
            )
        }),
{
}

} // verus!
