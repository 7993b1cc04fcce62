//! What each operation promises, in terms of its inputs: when it succeeds, why
//! it is refused, what it changes and what it asks of the host.

use vstd::prelude::*;

use crate::marketplace::model::{
    admin_error, cancel_listing, deployed, fee_rate, fund_invoice, get_listing, initialize,
    list_invoice, whitelist_token, State,
};
use crate::marketplace::{DataKey, MarketplaceContract, StoreOp};
use crate::shared::errors::KoraError;
use crate::shared::events::{EventView, Shape, Topic, Value};
use crate::shared::host::{Call, Context, Durability, EffectView, Step};
use crate::shared::types::{Address, Listing};

verus! {

/// The state is what is stored.
pub proof fn state_is_what_is_stored(contract: MarketplaceContract)
    ensures
        contract@.admin == contract.admin,
        contract@.invoice_nft == contract.invoice_nft,
        contract@.financing_pool == contract.financing_pool,
        contract@.treasury == contract.treasury,
        contract@.fee_bps == contract.fee_bps,
        contract@.tokens == contract.tokens@,
        contract@.listings == contract.listings@,
{
}

/// A change to the storage is told as it was made.
pub proof fn change_is_told(op: StoreOp)
    ensures
        op@ == op,
{
}

/// Nothing is configured, whitelisted or listed at first.
pub proof fn nothing_at_first(token: Address, invoice_id: u64)
    ensures
        ({
            let s = deployed();
            &&& s.admin is None && s.invoice_nft is None && s.financing_pool is None
            &&& s.treasury is None && s.fee_bps is None
            &&& !s.tokens.contains_key(token) && !s.listings.contains_key(invoice_id)
        }),
{
}

/// Listings and whitelisted tokens are kept in entries of their own, the
/// configuration with the contract instance.
pub proof fn where_entries_live(key: DataKey)
    ensures
        key.spec_durability() == Durability::Persistent <==> key is Listing
            || key is WhitelistedToken,
{
}

/// The state is well formed exactly where all of the configuration is there, or
/// none of it counts and nothing is whitelisted or listed.
pub proof fn well_formed_exactly_when(s: State)
    ensures
        s.admin is Some ==> (s.wf() <==> s.invoice_nft is Some && s.financing_pool is Some
            && s.treasury is Some),
        s.admin is None ==> (s.wf() <==> (forall|a: Address| !#[trigger] s.tokens.contains_key(a))
            && (forall|id: u64| !#[trigger] s.listings.contains_key(id))),
{
    if s.admin is None {
        if (forall|a: Address| !#[trigger] s.tokens.contains_key(a)) && (forall|id: u64|
            !#[trigger] s.listings.contains_key(id)) {
            assert(s.tokens =~= Map::<Address, bool>::empty());
            assert(s.listings =~= Map::<u64, Listing>::empty());
        }
    }
}

/// Exactly the admin passes as the admin; where nobody is, nothing is set up.
pub proof fn only_the_admin_passes(s: State, caller: Address)
    ensures
        admin_error(s, caller) is None <==> s.admin == Some(caller),
        s.admin is None ==> admin_error(s, caller) == Some(KoraError::NotInitialized),
        s.admin is Some && s.admin != Some(caller) ==> admin_error(s, caller) == Some(
            KoraError::NotAdmin,
        ),
{
}

/// Initializing succeeds exactly where nothing was configured and the fee is at
/// most the whole; it sets the configuration, each entry once, and nothing else.
pub proof fn initializing(
    s: State,
    admin: Address,
    invoice_nft: Address,
    financing_pool: Address,
    treasury: Address,
    fee_bps: u32,
)
    ensures
        ({
            let end = initialize(s, admin, invoice_nft, financing_pool, treasury, fee_bps);
            &&& end.result is Ok <==> s.admin is None && fee_bps <= 10_000
            &&& s.admin is Some ==> end.result == Err::<(), KoraError>(
                KoraError::AlreadyInitialized,
            )
            &&& s.admin is None && fee_bps > 10_000 ==> end.result == Err::<(), KoraError>(
                KoraError::InvalidFeeRate,
            )
            &&& end.result is Err ==> end.state == s && end.log.len() == 0
            &&& end.result is Ok ==> {
                &&& end.state.admin == Some(admin)
                &&& end.state.invoice_nft == Some(invoice_nft)
                &&& end.state.financing_pool == Some(financing_pool)
                &&& end.state.treasury == Some(treasury)
                &&& end.state.fee_bps == Some(fee_bps)
                &&& end.state.tokens == s.tokens && end.state.listings == s.listings
                &&& end.log.len() == 5
                &&& end.log[0] == Step::<StoreOp, EventView>::Store(StoreOp::SetAdmin(admin))
                &&& end.log[1] == Step::<StoreOp, EventView>::Store(
                    StoreOp::SetInvoiceNft(invoice_nft),
                )
                &&& end.log[2] == Step::<StoreOp, EventView>::Store(
                    StoreOp::SetFinancingPool(financing_pool),
                )
                &&& end.log[3] == Step::<StoreOp, EventView>::Store(StoreOp::SetTreasury(treasury))
                &&& end.log[4] == Step::<StoreOp, EventView>::Store(StoreOp::SetFeeBps(fee_bps))
            }
        }),
{
}

/// Whether a log asks for one authorization and nothing else.
pub open spec fn asks_only(log: Seq<EffectView<StoreOp>>, who: Address) -> bool {
    log.len() == 1 && log[0] == Step::<StoreOp, EventView>::RequireAuth(who)
}

/// Listing succeeds exactly when the protocol is not paused, the asking price
/// is positive and below the face value, the deadline is later than the current
/// ledger, the token is on the whitelist and the invoice has no listing yet. Each
/// refusal has its error and changes nothing.
pub proof fn listing_succeeds_exactly_when(
    s: State,
    cx: Context,
    seller: Address,
    invoice_id: u64,
    asking_price: i128,
    face_value: i128,
    token: Address,
    funding_deadline: u64,
)
    ensures
        ({
            let end = list_invoice(
                s,
                cx,
                seller,
                invoice_id,
                asking_price,
                face_value,
                token,
                funding_deadline,
            );
            let running = !cx.protocol_paused;
            let positive = 0 < asking_price && 0 < face_value;
            let in_time = cx.timestamp < funding_deadline;
            let discount = asking_price < face_value;
            let allowed = s.tokens.contains_key(token) && s.tokens[token];
            let listed = s.listings.contains_key(invoice_id);
            &&& end.result is Ok <==> running && positive && in_time && discount && allowed
                && !listed
            &&& !running ==> end.result == Err::<(), KoraError>(KoraError::ProtocolPaused)
            &&& running && !positive ==> end.result == Err::<(), KoraError>(
                KoraError::InvalidAmount,
            )
            &&& running && positive && !in_time ==> end.result == Err::<(), KoraError>(
                KoraError::InvalidDueDate,
            )
            &&& running && positive && in_time && !discount ==> end.result == Err::<
                (),
                KoraError,
            >(KoraError::InvalidAmount)
            &&& running && positive && in_time && discount && !allowed ==> end.result == Err::<
                (),
                KoraError,
            >(KoraError::TokenNotWhitelisted)
            &&& running && positive && in_time && discount && allowed && listed ==> end.result
                == Err::<(), KoraError>(KoraError::InvoiceAlreadyExists)
            &&& end.result is Err ==> end.state == s && asks_only(end.log, seller)
        }),
{
}

/// A listing that is made is active, not funded yet and on the seller's terms.
/// Nothing else changes. The invoice contract is told, the listing is stored and
/// announced, in this order.
pub proof fn listing_makes_a_listing(
    s: State,
    cx: Context,
    seller: Address,
    invoice_id: u64,
    asking_price: i128,
    face_value: i128,
    token: Address,
    funding_deadline: u64,
    other: u64,
)
    requires
        list_invoice(
            s,
            cx,
            seller,
            invoice_id,
            asking_price,
            face_value,
            token,
            funding_deadline,
        ).result is Ok,
    ensures
        ({
            let end = list_invoice(
                s,
                cx,
                seller,
                invoice_id,
                asking_price,
                face_value,
                token,
                funding_deadline,
            );
            let made = end.state.listings[invoice_id];
            &&& end.state.listings.contains_key(invoice_id)
            &&& made.invoice_id == invoice_id && made.seller == seller
            &&& made.asking_price == asking_price && made.face_value == face_value
            &&& made.token == token && made.funding_deadline == funding_deadline
            &&& made.funded_amount == 0 && made.is_active
            &&& other != invoice_id ==> end.state.listings.contains_key(other)
                == s.listings.contains_key(other) && end.state.listings[other]
                == s.listings[other]
            &&& end.state.admin == s.admin && end.state.invoice_nft == s.invoice_nft
            &&& end.state.financing_pool == s.financing_pool && end.state.treasury == s.treasury
            &&& end.state.fee_bps == s.fee_bps && end.state.tokens == s.tokens
            &&& end.log.len() == 4
            &&& end.log[0] == Step::<StoreOp, EventView>::RequireAuth(seller)
            &&& end.log[1] == Step::<StoreOp, EventView>::Call(
                Call::SetListed {
                    invoice_nft: s.invoice_nft->0,
                    caller: cx.contract,
                    invoice_id,
                },
            )
            &&& end.log[2] == Step::<StoreOp, EventView>::Store(
                StoreOp::SetListing(invoice_id, made),
            )
            &&& end.log[3] == Step::<StoreOp, EventView>::Publish(
                EventView {
                    topic: Topic::InvLst,
                    shape: Shape::Tuple,
                    data: seq![
                        Value::Address(seller),
                        Value::U64(invoice_id),
                        Value::I128(asking_price),
                        Value::U64(cx.timestamp),
                    ],
                },
            )
        }),
{
}

/// The fee rate in force is the configured one, and half a percent where none
/// is.
pub proof fn rate_in_force(s: State)
    ensures
        s.fee_bps matches Some(bps) ==> fee_rate(s) == bps,
        s.fee_bps is None ==> fee_rate(s) == 50,
{
}

/// Funding succeeds exactly when the protocol is not paused, the amount is
/// positive and at most what the listing lacks, the listing is active, the
/// deadline has not passed, and the fee can be computed. Each refusal has its
/// error and changes nothing.
pub proof fn funding_succeeds_exactly_when(
    s: State,
    cx: Context,
    investor: Address,
    invoice_id: u64,
    amount: i128,
)
    ensures
        ({
            let end = fund_invoice(s, cx, investor, invoice_id, amount);
            let old = s.listings[invoice_id];
            let rate: int = if s.fee_bps is Some {
                s.fee_bps->0 as int
            } else {
                50
            };
            let lacking = old.asking_price - old.funded_amount;
            let running = !cx.protocol_paused;
            let positive = 0 < amount;
            let listed = s.listings.contains_key(invoice_id);
            let in_time = cx.timestamp <= old.funding_deadline;
            let known = i128::MIN <= lacking <= i128::MAX;
            let enough = amount <= lacking;
            let computed = amount * rate <= i128::MAX;
            &&& end.result is Ok <==> running && positive && listed && old.is_active && in_time
                && known && enough && computed
            &&& !running ==> end.result == Err::<(), KoraError>(KoraError::ProtocolPaused)
            &&& running && !positive ==> end.result == Err::<(), KoraError>(
                KoraError::InvalidAmount,
            )
            &&& running && positive && !listed ==> end.result == Err::<(), KoraError>(
                KoraError::ListingNotFound,
            )
            &&& running && positive && listed && !old.is_active ==> end.result == Err::<
                (),
                KoraError,
            >(KoraError::ListingAlreadyCancelled)
            &&& running && positive && listed && old.is_active && !in_time ==> end.result == Err::<
                (),
                KoraError,
            >(KoraError::FundingDeadlinePassed)
            &&& running && positive && listed && old.is_active && in_time && !known ==> end.result
                == Err::<(), KoraError>(KoraError::ArithmeticOverflow)
            &&& running && positive && listed && old.is_active && in_time && known && !enough
                ==> end.result == Err::<(), KoraError>(KoraError::ExceedsFundingTarget)
            &&& running && positive && listed && old.is_active && in_time && known && enough
                && !computed ==> end.result == Err::<(), KoraError>(KoraError::ArithmeticOverflow)
            &&& end.result is Err ==> end.state == s && asks_only(end.log, investor)
        }),
{
    let rate: int = if s.fee_bps is Some {
        s.fee_bps->0 as int
    } else {
        50
    };
    assert(amount > 0 ==> amount * rate >= 0) by (nonlinear_arith)
        requires
            rate >= 0,
    ;
}

/// A contribution adds exactly its amount to what the listing has raised, and
/// the listing stays active exactly as long as it has raised less than its
/// asking price. Nothing else changes.
pub proof fn funding_raises_the_amount(
    s: State,
    cx: Context,
    investor: Address,
    invoice_id: u64,
    amount: i128,
    other: u64,
)
    requires
        fund_invoice(s, cx, investor, invoice_id, amount).result is Ok,
    ensures
        ({
            let end = fund_invoice(s, cx, investor, invoice_id, amount);
            let old = s.listings[invoice_id];
            let new = end.state.listings[invoice_id];
            &&& end.state.listings.contains_key(invoice_id)
            &&& new.funded_amount == old.funded_amount + amount
            &&& new.is_active <==> new.funded_amount < new.asking_price
            &&& new.invoice_id == old.invoice_id && new.seller == old.seller
            &&& new.asking_price == old.asking_price && new.face_value == old.face_value
            &&& new.token == old.token && new.funding_deadline == old.funding_deadline
            &&& other != invoice_id ==> end.state.listings.contains_key(other)
                == s.listings.contains_key(other) && end.state.listings[other]
                == s.listings[other]
            &&& end.state.admin == s.admin && end.state.invoice_nft == s.invoice_nft
            &&& end.state.financing_pool == s.financing_pool && end.state.treasury == s.treasury
            &&& end.state.fee_bps == s.fee_bps && end.state.tokens == s.tokens
        }),
{
}

/// A contribution asks for exactly two transfers, both from the investor and in
/// the listing's token: the fee to the treasury, which is the rate's share of
/// the amount rounded down, and all the rest to the pool. Then the listing is
/// stored, the contribution and the fee are announced, and last, exactly when
/// the asking price is reached, the pool is told to release the funds.
pub proof fn funding_moves_the_amount(
    s: State,
    cx: Context,
    investor: Address,
    invoice_id: u64,
    amount: i128,
)
    requires
        fund_invoice(s, cx, investor, invoice_id, amount).result is Ok,
    ensures
        ({
            let end = fund_invoice(s, cx, investor, invoice_id, amount);
            let new = end.state.listings[invoice_id];
            let token = s.listings[invoice_id].token;
            let rate: int = if s.fee_bps is Some {
                s.fee_bps->0 as int
            } else {
                50
            };
            let fee = (amount * rate / 10_000) as i128;
            let full = new.funded_amount >= new.asking_price;
            &&& fee == amount * rate / 10_000
            &&& 0 <= fee && (rate <= 10_000 ==> fee <= amount)
            &&& end.log.len() == if full {
                7int
            } else {
                6
            }
            &&& end.log[0] == Step::<StoreOp, EventView>::RequireAuth(investor)
            &&& end.log[1] == Step::<StoreOp, EventView>::Call(
                Call::Transfer { token, from: investor, to: s.treasury->0, amount: fee },
            )
            &&& end.log[2] == Step::<StoreOp, EventView>::Call(
                Call::Transfer {
                    token,
                    from: investor,
                    to: s.financing_pool->0,
                    amount: (amount - fee) as i128,
                },
            )
            &&& end.log[3] == Step::<StoreOp, EventView>::Store(
                StoreOp::SetListing(invoice_id, new),
            )
            &&& end.log[4] == Step::<StoreOp, EventView>::Publish(
                EventView {
                    topic: Topic::InvFnd,
                    shape: Shape::Tuple,
                    data: seq![
                        Value::Address(investor),
                        Value::U64(invoice_id),
                        Value::I128(amount),
                        Value::U64(cx.timestamp),
                    ],
                },
            )
            &&& end.log[5] == Step::<StoreOp, EventView>::Publish(
                EventView {
                    topic: Topic::FeeCol,
                    shape: Shape::Tuple,
                    data: seq![
                        Value::Address(investor),
                        Value::U64(invoice_id),
                        Value::I128(fee),
                        Value::Address(token),
                        Value::U64(cx.timestamp),
                    ],
                },
            )
            &&& full ==> end.log[6] == Step::<StoreOp, EventView>::Call(
                Call::ReleaseFunds {
                    pool: s.financing_pool->0,
                    marketplace: cx.contract,
                    invoice_id,
                    token,
                },
            )
        }),
{
    let rate: int = if s.fee_bps is Some {
        s.fee_bps->0 as int
    } else {
        50
    };
    assert(0 <= amount * rate && (rate <= 10_000 ==> amount * rate <= amount * 10_000))
        by (nonlinear_arith)
        requires
            0 <= rate,
            amount > 0,
    ;
}

/// Cancelling succeeds exactly when the protocol is not paused, the listing
/// exists and is active, and the caller is its seller or the admin, however much
/// of the asking price was already contributed. Each refusal has its error and
/// changes nothing.
pub proof fn cancelling_succeeds_exactly_when(
    s: State,
    cx: Context,
    caller: Address,
    invoice_id: u64,
)
    ensures
        ({
            let end = cancel_listing(s, cx, caller, invoice_id);
            let old = s.listings[invoice_id];
            let running = !cx.protocol_paused;
            let listed = s.listings.contains_key(invoice_id);
            let entitled = caller == old.seller || s.admin == Some(caller);
            &&& end.result is Ok <==> running && listed && old.is_active && entitled
            &&& !running ==> end.result == Err::<(), KoraError>(KoraError::ProtocolPaused)
            &&& running && !listed ==> end.result == Err::<(), KoraError>(
                KoraError::ListingNotFound,
            )
            &&& running && listed && !old.is_active ==> end.result == Err::<(), KoraError>(
                KoraError::ListingAlreadyCancelled,
            )
            &&& running && listed && old.is_active && !entitled ==> end.result == Err::<
                (),
                KoraError,
            >(KoraError::Unauthorized)
            &&& end.result is Err ==> end.state == s && asks_only(end.log, caller)
        }),
{
}

/// A cancelled listing is inactive and otherwise as before, and so is all else.
/// It is stored and the cancelling is announced.
pub proof fn cancelling_ends_the_listing(
    s: State,
    cx: Context,
    caller: Address,
    invoice_id: u64,
    other: u64,
)
    requires
        cancel_listing(s, cx, caller, invoice_id).result is Ok,
    ensures
        ({
            let end = cancel_listing(s, cx, caller, invoice_id);
            let old = s.listings[invoice_id];
            let new = end.state.listings[invoice_id];
            &&& end.state.listings.contains_key(invoice_id)
            &&& !new.is_active
            &&& new.funded_amount == old.funded_amount
            &&& new.invoice_id == old.invoice_id && new.seller == old.seller
            &&& new.asking_price == old.asking_price && new.face_value == old.face_value
            &&& new.token == old.token && new.funding_deadline == old.funding_deadline
            &&& other != invoice_id ==> end.state.listings.contains_key(other)
                == s.listings.contains_key(other) && end.state.listings[other]
                == s.listings[other]
            &&& end.state.admin == s.admin && end.state.invoice_nft == s.invoice_nft
            &&& end.state.financing_pool == s.financing_pool && end.state.treasury == s.treasury
            &&& end.state.fee_bps == s.fee_bps && end.state.tokens == s.tokens
            &&& end.log.len() == 3
            &&& end.log[0] == Step::<StoreOp, EventView>::RequireAuth(caller)
            &&& end.log[1] == Step::<StoreOp, EventView>::Store(
                StoreOp::SetListing(invoice_id, new),
            )
            &&& end.log[2] == Step::<StoreOp, EventView>::Publish(
                EventView {
                    topic: Topic::LstCxl,
                    shape: Shape::Tuple,
                    data: seq![
                        Value::U64(invoice_id),
                        Value::Address(caller),
                        Value::U64(cx.timestamp),
                    ],
                },
            )
        }),
{
}

/// Whitelisting succeeds exactly when the protocol is not paused and the admin
/// asks. The token is then allowed, whether or not it was before, and nothing
/// else changes.
pub proof fn whitelisting(s: State, cx: Context, admin: Address, token: Address, other: Address)
    ensures
        ({
            let end = whitelist_token(s, cx, admin, token);
            &&& end.result is Ok <==> !cx.protocol_paused && s.admin == Some(admin)
            &&& cx.protocol_paused ==> end.result == Err::<(), KoraError>(
                KoraError::ProtocolPaused,
            )
            &&& !cx.protocol_paused && s.admin is None ==> end.result == Err::<(), KoraError>(
                KoraError::NotInitialized,
            )
            &&& !cx.protocol_paused && s.admin is Some && s.admin != Some(admin) ==> end.result
                == Err::<(), KoraError>(KoraError::NotAdmin)
            &&& end.result is Err ==> end.state == s && asks_only(end.log, admin)
            &&& end.result is Ok ==> {
                &&& end.state.tokens.contains_key(token) && end.state.tokens[token]
                &&& other != token ==> end.state.tokens.contains_key(other)
                    == s.tokens.contains_key(other) && end.state.tokens[other] == s.tokens[other]
                &&& end.state.listings == s.listings
                &&& end.state.admin == s.admin && end.state.invoice_nft == s.invoice_nft
                &&& end.state.financing_pool == s.financing_pool
                &&& end.state.treasury == s.treasury && end.state.fee_bps == s.fee_bps
                &&& end.log.len() == 2
                &&& end.log[0] == Step::<StoreOp, EventView>::RequireAuth(admin)
                &&& end.log[1] == Step::<StoreOp, EventView>::Store(
                    StoreOp::SetWhitelistedToken(token, true),
                )
            }
        }),
{
}

/// A listing can be read exactly where there is one.
pub proof fn reading_a_listing(s: State, invoice_id: u64)
    ensures
        s.listings.contains_key(invoice_id) ==> get_listing(s, invoice_id) == Ok::<
            Listing,
            KoraError,
        >(s.listings[invoice_id]),
        !s.listings.contains_key(invoice_id) ==> get_listing(s, invoice_id) == Err::<
            Listing,
            KoraError,
        >(KoraError::ListingNotFound),
{
}

} // verus!
