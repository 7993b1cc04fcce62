//! What holds of the contract as a whole.

use vstd::prelude::*;

use crate::marketplace::model::{
    self, cancel_listing, deployed, fee_on, fee_rate, fund_invoice, get_listing, initialize,
    lemma_fee_bounds, list_invoice, remaining, whitelist_token, whitelisted, State,
};
use crate::marketplace::StoreOp;
use crate::shared::errors::KoraError;
use crate::shared::events::EventView;
use crate::shared::host::{
    begins_with_authorization, lemma_first_steps, replay, Call, Context, EffectView, Outcome, Step,
};
use crate::shared::types::{Address, Listing};
use crate::shared::validation::{fits, BPS_SCALE};

verus! {

/// A request that can change what the contract stores.
pub enum Request {
    Initialize {
        admin: Address,
        invoice_nft: Address,
        financing_pool: Address,
        treasury: Address,
        fee_bps: u32,
    },
    ListInvoice {
        seller: Address,
        invoice_id: u64,
        asking_price: i128,
        face_value: i128,
        token: Address,
        funding_deadline: u64,
    },
    FundInvoice { investor: Address, invoice_id: u64, amount: i128 },
    CancelListing { caller: Address, invoice_id: u64 },
    WhitelistToken { admin: Address, token: Address },
}

impl Request {
    /// Who makes the request: the one whose authorization it needs.
    pub open spec fn caller(self) -> Option<Address> {
        match self {
            Request::Initialize { .. } => None,
            Request::ListInvoice { seller, .. } => Some(seller),
            Request::FundInvoice { investor, .. } => Some(investor),
            Request::CancelListing { caller, .. } => Some(caller),
            Request::WhitelistToken { admin, .. } => Some(admin),
        }
    }
}

/// How a request ends.
pub open spec fn perform(s: State, cx: Context, request: Request) -> Outcome<State, StoreOp, ()> {
    match request {
        Request::Initialize { admin, invoice_nft, financing_pool, treasury, fee_bps } => initialize(
            s,
            admin,
            invoice_nft,
            financing_pool,
            treasury,
            fee_bps,
        ),
        Request::ListInvoice {
            seller,
            invoice_id,
            asking_price,
            face_value,
            token,
            funding_deadline,
        } => list_invoice(
            s,
            cx,
            seller,
            invoice_id,
            asking_price,
            face_value,
            token,
            funding_deadline,
        ),
        Request::FundInvoice { investor, invoice_id, amount } => fund_invoice(
            s,
            cx,
            investor,
            invoice_id,
            amount,
        ),
        Request::CancelListing { caller, invoice_id } => cancel_listing(s, cx, caller, invoice_id),
        Request::WhitelistToken { admin, token } => whitelist_token(s, cx, admin, token),
    }
}

/// The state of the contract after a history of requests.
pub open spec fn after(history: Seq<(Context, Request)>) -> State
    decreases history.len(),
{
    if history.len() == 0 {
        deployed()
    } else {
        perform(after(history.drop_last()), history.last().0, history.last().1).state
    }
}

/// A listing offers a discount, is never funded beyond its asking price, and is
/// no longer active once the asking price is reached.
pub open spec fn sound_listing(s: State, invoice_id: u64, listing: Listing) -> bool {
    &&& listing.invoice_id == invoice_id
    &&& 0 < listing.asking_price < listing.face_value
    &&& 0 <= listing.funded_amount <= listing.asking_price
    &&& listing.is_active ==> listing.funded_amount < listing.asking_price
    &&& whitelisted(s, listing.token)
}

/// Configured whole or not at all, with a fee rate of at most the whole, and
/// with sound listings.
pub open spec fn consistent(s: State) -> bool {
    &&& s.wf()
    &&& fee_rate(s) <= BPS_SCALE
    &&& forall|id: u64| #[trigger]
        s.listings.contains_key(id) ==> sound_listing(s, id, s.listings[id])
}

/// Every request keeps the contract consistent.
pub proof fn consistency_is_kept(s: State, cx: Context, request: Request)
    requires
        consistent(s),
    ensures
        consistent(perform(s, cx, request).state),
{
    let t = perform(s, cx, request).state;
    assert forall|id: u64| #[trigger] t.listings.contains_key(id) implies sound_listing(
        t,
        id,
        t.listings[id],
    ) by {
        if s.listings.contains_key(id) {
            assert(sound_listing(s, id, s.listings[id]));
        }
    }
}

/// The contract is consistent after every history of requests.
pub proof fn always_consistent(history: Seq<(Context, Request)>)
    ensures
        consistent(after(history)),
    decreases history.len(),
{
    if history.len() > 0 {
        always_consistent(history.drop_last());
        consistency_is_kept(after(history.drop_last()), history.last().0, history.last().1);
    }
}

/// A request that fails changes nothing.
pub proof fn failure_changes_nothing(s: State, cx: Context, request: Request)
    ensures
        perform(s, cx, request).result is Err ==> perform(s, cx, request).state == s,
{
}

/// The caller's authorization comes first: before anything is stored, published
/// or called, and also where the request is refused.
pub proof fn authorization_comes_first(s: State, cx: Context, request: Request)
    ensures
        request.caller() matches Some(caller) ==> begins_with_authorization(
            perform(s, cx, request).log,
            caller,
        ),
{
}

/// While the protocol is paused every request that needs an authorization is
/// refused, and changes nothing.
pub proof fn pause_stops_every_request(s: State, cx: Context, request: Request)
    requires
        cx.protocol_paused,
        request.caller() is Some,
    ensures
        perform(s, cx, request).result == Err::<(), KoraError>(KoraError::ProtocolPaused),
        perform(s, cx, request).state == s,
{
}

/// The configuration is set once: only the first `initialize` changes it, and
/// any later one is refused.
pub proof fn configured_once(s: State, cx: Context, request: Request)
    requires
        s.admin is Some,
    ensures
        ({
            let end = perform(s, cx, request);
            &&& end.state.admin == s.admin && end.state.invoice_nft == s.invoice_nft
            &&& end.state.financing_pool == s.financing_pool && end.state.treasury == s.treasury
            &&& end.state.fee_bps == s.fee_bps
            &&& request is Initialize ==> end.result == Err::<(), KoraError>(
                KoraError::AlreadyInitialized,
            )
        }),
{
}

/// The state that the steps of a log lead to.
pub open spec fn replayed(s: State, log: Seq<EffectView<StoreOp>>) -> State {
    replay(|t: State, op: StoreOp| model::apply(t, op), s, log, log.len() as int)
}

/// The storage steps that a request asks for lead to the state it ends in.
#[verifier::rlimit(40)]
pub proof fn steps_lead_to_the_state(s: State, cx: Context, request: Request)
    ensures
        replayed(s, perform(s, cx, request).log) == perform(s, cx, request).state,
{
    let log = perform(s, cx, request).log;
    lemma_first_steps(|t: State, op: StoreOp| model::apply(t, op), s, log);
    match request {
        Request::Initialize { .. } => {},
        Request::ListInvoice { .. } => {},
        Request::FundInvoice { .. } => {},
        Request::CancelListing { .. } => {},
        Request::WhitelistToken { .. } => {},
    }
}

/// A listing that was made can be read back as it was made: active, and not
/// funded yet.
pub proof fn listed_invoice_is_found(
    s: State,
    cx: Context,
    seller: Address,
    invoice_id: u64,
    asking_price: i128,
    face_value: i128,
    token: Address,
    funding_deadline: u64,
)
    requires
        list_invoice(
            s,
            cx,
            seller,
            invoice_id,
            asking_price,
            face_value,
            token,
            funding_deadline,
        ).result is Ok,
    ensures
        get_listing(
            list_invoice(
                s,
                cx,
                seller,
                invoice_id,
                asking_price,
                face_value,
                token,
                funding_deadline,
            ).state,
            invoice_id,
        ) == Ok::<Listing, KoraError>(
            (Listing {
                invoice_id,
                seller,
                asking_price,
                face_value,
                token,
                funded_amount: 0,
                funding_deadline,
                is_active: true,
            }),
        ),
{
}

/// An invoice is listed at most once: a listing never goes away, not even when
/// it is cancelled or funded, and no later request can list the invoice again.
/// Its terms never change, what was funded never shrinks, and once it is
/// inactive nothing of it ever changes.
pub proof fn listings_are_for_good(s: State, cx: Context, request: Request, invoice_id: u64)
    requires
        consistent(s),
        s.listings.contains_key(invoice_id),
    ensures
        ({
            let old = s.listings[invoice_id];
            let end = perform(s, cx, request);
            let new = end.state.listings[invoice_id];
            &&& end.state.listings.contains_key(invoice_id)
            &&& new.invoice_id == old.invoice_id && new.seller == old.seller
            &&& new.asking_price == old.asking_price && new.face_value == old.face_value
            &&& new.token == old.token && new.funding_deadline == old.funding_deadline
            &&& new.funded_amount >= old.funded_amount
            &&& !old.is_active ==> new == old
            &&& (request matches Request::ListInvoice { invoice_id: id, .. } && id == invoice_id)
                ==> end.result is Err
        }),
{
}

/// A request about one invoice leaves the listings of all others alone.
pub proof fn other_listings_are_untouched(s: State, cx: Context, request: Request, other: u64)
    requires
        match request {
            Request::ListInvoice { invoice_id, .. } => invoice_id != other,
            Request::FundInvoice { invoice_id, .. } => invoice_id != other,
            Request::CancelListing { invoice_id, .. } => invoice_id != other,
            _ => true,
        },
    ensures
        perform(s, cx, request).state.listings.get(other) == s.listings.get(other),
{
}

/// An inactive listing, whether it was cancelled or is fully funded, takes no
/// more money and cannot be cancelled.
pub proof fn inactive_listing_is_closed(
    s: State,
    cx: Context,
    who: Address,
    invoice_id: u64,
    amount: i128,
)
    requires
        s.listings.contains_key(invoice_id),
        !s.listings[invoice_id].is_active,
        !cx.protocol_paused,
        amount > 0,
    ensures
        fund_invoice(s, cx, who, invoice_id, amount).result == Err::<(), KoraError>(
            KoraError::ListingAlreadyCancelled,
        ),
        cancel_listing(s, cx, who, invoice_id).result == Err::<(), KoraError>(
            KoraError::ListingAlreadyCancelled,
        ),
{
}

/// Money moves as it should: what the investor pays is split into the fee for
/// the treasury and the rest for the pool, nothing is lost or made up, and the
/// fee is the fee rate's share of the amount, rounded down. Exactly the amount
/// is added to what the listing has raised, which never exceeds the asking
/// price.
pub proof fn funding_is_split_without_loss(
    s: State,
    cx: Context,
    investor: Address,
    invoice_id: u64,
    amount: i128,
)
    requires
        consistent(s),
        fund_invoice(s, cx, investor, invoice_id, amount).result is Ok,
    ensures
        ({
            let end = fund_invoice(s, cx, investor, invoice_id, amount);
            let old = s.listings[invoice_id];
            let new = end.state.listings[invoice_id];
            let fee = fee_on(s, amount);
            let net = (amount - fee) as i128;
            &&& 0 <= fee <= amount && fee + net == amount
            &&& fee == amount * fee_rate(s) / BPS_SCALE as int
            &&& end.log[1] == Step::<StoreOp, EventView>::Call(
                Call::Transfer {
                    token: old.token,
                    from: investor,
                    to: s.treasury->0,
                    amount: fee,
                },
            )
            &&& end.log[2] == Step::<StoreOp, EventView>::Call(
                Call::Transfer {
                    token: old.token,
                    from: investor,
                    to: s.financing_pool->0,
                    amount: net,
                },
            )
            &&& new.funded_amount == old.funded_amount + amount
            &&& new.funded_amount <= new.asking_price
            &&& forall|i: int|
                2 < i < end.log.len() ==> !(#[trigger] end.log[i] matches Step::Call(
                    Call::Transfer { .. },
                ))
        }),
{
    lemma_fee_bounds(amount, fee_rate(s));
}

/// What an invoice has raised in a history: the sum of all contributions that
/// were accepted.
pub open spec fn raised(history: Seq<(Context, Request)>, invoice_id: u64) -> int
    decreases history.len(),
{
    if history.len() == 0 {
        0
    } else {
        let earlier = history.drop_last();
        let end = perform(after(earlier), history.last().0, history.last().1);
        raised(earlier, invoice_id) + match history.last().1 {
            Request::FundInvoice { invoice_id: id, amount, .. } => if id == invoice_id
                && end.result is Ok {
                amount as int
            } else {
                0
            },
            _ => 0,
        }
    }
}

/// The funded amount of a listing is the sum of the contributions that were
/// accepted for it.
pub proof fn funded_amount_is_what_was_raised(history: Seq<(Context, Request)>, invoice_id: u64)
    ensures
        after(history).listings.contains_key(invoice_id) ==> after(
            history,
        ).listings[invoice_id].funded_amount == raised(history, invoice_id),
        !after(history).listings.contains_key(invoice_id) ==> raised(history, invoice_id) == 0,
    decreases history.len(),
{
    if history.len() > 0 {
        funded_amount_is_what_was_raised(history.drop_last(), invoice_id);
        always_consistent(history.drop_last());
    }
}

/// The pool is told to release the funds exactly when the asking price is
/// reached, which also closes the listing.
pub proof fn pool_opens_when_fully_funded(
    s: State,
    cx: Context,
    investor: Address,
    invoice_id: u64,
    amount: i128,
)
    requires
        consistent(s),
        fund_invoice(s, cx, investor, invoice_id, amount).result is Ok,
    ensures
        ({
            let end = fund_invoice(s, cx, investor, invoice_id, amount);
            let new = end.state.listings[invoice_id];
            let released = Step::<StoreOp, EventView>::Call(
                Call::ReleaseFunds {
                    pool: s.financing_pool->0,
                    marketplace: cx.contract,
                    invoice_id,
                    token: new.token,
                },
            );
            &&& new.is_active <==> new.funded_amount < new.asking_price
            &&& end.log.contains(released) <==> new.funded_amount == new.asking_price
        }),
{
    let end = fund_invoice(s, cx, investor, invoice_id, amount);
    let new = end.state.listings[invoice_id];
    if new.funded_amount == new.asking_price {
        assert(end.log[6] is Call);
    }
}

/// Before the deadline any part of what an active listing still lacks can be
/// paid in, as far as its fee can be computed; more than it lacks is refused.
pub proof fn what_is_lacking_can_be_funded(
    s: State,
    cx: Context,
    investor: Address,
    invoice_id: u64,
    amount: i128,
)
    requires
        consistent(s),
        !cx.protocol_paused,
        s.listings.contains_key(invoice_id),
        s.listings[invoice_id].is_active,
        cx.timestamp <= s.listings[invoice_id].funding_deadline,
        amount > 0,
    ensures
        amount > remaining(s.listings[invoice_id]) ==> fund_invoice(
            s,
            cx,
            investor,
            invoice_id,
            amount,
        ).result == Err::<(), KoraError>(KoraError::ExceedsFundingTarget),
        amount <= remaining(s.listings[invoice_id]) && fits(amount * fee_rate(s))
            ==> fund_invoice(s, cx, investor, invoice_id, amount).result is Ok,
{
}

/// After the deadline nobody can fund a listing.
pub proof fn deadline_ends_funding(
    s: State,
    cx: Context,
    investor: Address,
    invoice_id: u64,
    amount: i128,
)
    requires
        s.listings.contains_key(invoice_id),
        cx.timestamp > s.listings[invoice_id].funding_deadline,
    ensures
        fund_invoice(s, cx, investor, invoice_id, amount).result is Err,
        fund_invoice(s, cx, investor, invoice_id, amount).state == s,
{
}

/// A listing is cancelled by its seller or by the admin, by nobody else;
/// cancelling touches nothing but the listing's being active.
pub proof fn only_seller_or_admin_cancels(s: State, cx: Context, caller: Address, invoice_id: u64)
    ensures
        cancel_listing(s, cx, caller, invoice_id).result is Ok ==> {
            let old = s.listings[invoice_id];
            &&& caller == old.seller || s.admin == Some(caller)
            &&& old.is_active
            &&& cancel_listing(s, cx, caller, invoice_id).state == (State {
                listings: s.listings.insert(invoice_id, (Listing { is_active: false, ..old })),
                ..s
            })
        },
{
}

/// Only the admin adds to the whitelist, and nothing is taken off it. A token
/// that was added is on it; the others are as before.
pub proof fn whitelist_only_grows(s: State, cx: Context, request: Request, token: Address)
    ensures
        whitelisted(s, token) ==> whitelisted(perform(s, cx, request).state, token),
        !whitelisted(s, token) && whitelisted(perform(s, cx, request).state, token) ==> {
            &&& request matches Request::WhitelistToken { admin, token: added }
            &&& s.admin == Some(admin)
            &&& added == token
        },
        (request == Request::WhitelistToken { admin: s.admin->0, token } && s.admin is Some
            && !cx.protocol_paused) ==> whitelisted(perform(s, cx, request).state, token),
{
}

/// A token that is not on the whitelist cannot be listed with.
pub proof fn only_whitelisted_tokens_are_listed(
    s: State,
    cx: Context,
    seller: Address,
    invoice_id: u64,
    asking_price: i128,
    face_value: i128,
    token: Address,
    funding_deadline: u64,
)
    requires
        !whitelisted(s, token),
    ensures
        list_invoice(
            s,
            cx,
            seller,
            invoice_id,
            asking_price,
            face_value,
            token,
            funding_deadline,
        ).result is Err,
{
}

/// Whether two states agree on every entry that a request names.
pub open spec fn agree(s: State, t: State, request: Request) -> bool {
    &&& s.admin == t.admin && s.invoice_nft == t.invoice_nft
    &&& s.financing_pool == t.financing_pool && s.treasury == t.treasury
    &&& s.fee_bps == t.fee_bps
    &&& match request {
        Request::Initialize { .. } => true,
        Request::ListInvoice { invoice_id, token, .. } => s.listings.get(invoice_id)
            == t.listings.get(invoice_id) && s.tokens.get(token) == t.tokens.get(token),
        Request::FundInvoice { invoice_id, .. } => s.listings.get(invoice_id) == t.listings.get(
            invoice_id,
        ),
        Request::CancelListing { invoice_id, .. } => s.listings.get(invoice_id) == t.listings.get(
            invoice_id,
        ),
        Request::WhitelistToken { .. } => true,
    }
}

/// A request depends on nothing but the entries it names: where these are the
/// same it ends the same way and asks for the same steps.
pub proof fn only_named_entries_matter(s: State, t: State, cx: Context, request: Request)
    requires
        agree(s, t, request),
    ensures
        perform(s, cx, request).result == perform(t, cx, request).result,
        perform(s, cx, request).log == perform(t, cx, request).log,
{
}

} // verus!
