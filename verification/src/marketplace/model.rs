//! The contract as a mathematical state machine.

use vstd::prelude::*;

use crate::marketplace::{MarketplaceContract, StoreOp, DEFAULT_FEE_BPS};
use crate::shared::errors::KoraError;
use crate::shared::events;
use crate::shared::host::{refused, Call, Context, EffectView, Outcome, Step};
use crate::shared::types::{Address, Listing};
use crate::shared::validation::{fits, share_of, BPS_SCALE};

verus! {

/// What the contract stores.
#[verifier::ext_equal]
pub struct State {
    pub admin: Option<Address>,
    pub invoice_nft: Option<Address>,
    pub financing_pool: Option<Address>,
    pub treasury: Option<Address>,
    pub fee_bps: Option<u32>,
    pub tokens: Map<Address, bool>,
    pub listings: Map<u64, Listing>,
}

impl State {
    /// Configured whole or not at all; entries only once configured.
    pub open spec fn wf(self) -> bool {
        if self.admin is Some {
            self.invoice_nft is Some && self.financing_pool is Some && self.treasury is Some
        } else {
            self.tokens == Map::<Address, bool>::empty() && self.listings == Map::<
                u64,
                Listing,
            >::empty()
        }
    }
}

impl View for MarketplaceContract {
    type V = State;

    open spec fn view(&self) -> State {
        State {
            admin: self.admin,
            invoice_nft: self.invoice_nft,
            financing_pool: self.financing_pool,
            treasury: self.treasury,
            fee_bps: self.fee_bps,
            tokens: self.tokens@,
            listings: self.listings@,
        }
    }
}

pub open spec fn deployed() -> State {
    State {
        admin: None,
        invoice_nft: None,
        financing_pool: None,
        treasury: None,
        fee_bps: None,
        tokens: Map::empty(),
        listings: Map::empty(),
    }
}

/// What a storage step does to the state.
pub open spec fn apply(s: State, op: StoreOp) -> State {
    match op {
        StoreOp::SetAdmin(admin) => State { admin: Some(admin), ..s },
        StoreOp::SetInvoiceNft(invoice_nft) => State { invoice_nft: Some(invoice_nft), ..s },
        StoreOp::SetFinancingPool(pool) => State { financing_pool: Some(pool), ..s },
        StoreOp::SetTreasury(treasury) => State { treasury: Some(treasury), ..s },
        StoreOp::SetFeeBps(fee_bps) => State { fee_bps: Some(fee_bps), ..s },
        StoreOp::SetWhitelistedToken(token, allowed) => State {
            tokens: s.tokens.insert(token, allowed),
            ..s
        },
        StoreOp::SetListing(invoice_id, listing) => State {
            listings: s.listings.insert(invoice_id, listing),
            ..s
        },
    }
}

pub open spec fn stored(op: StoreOp) -> EffectView<StoreOp> {
    Step::Store(op)
}

pub open spec fn whitelisted(s: State, token: Address) -> bool {
    s.tokens.get(token) == Some(true)
}

/// The fee rate in force.
pub open spec fn fee_rate(s: State) -> u32 {
    match s.fee_bps {
        Some(bps) => bps,
        None => DEFAULT_FEE_BPS,
    }
}

pub open spec fn get_listing(s: State, invoice_id: u64) -> Result<Listing, KoraError> {
    match s.listings.get(invoice_id) {
        Some(listing) => Ok(listing),
        None => Err(KoraError::ListingNotFound),
    }
}

/// Why a request that only the admin may make is refused to the caller.
pub open spec fn admin_error(s: State, caller: Address) -> Option<KoraError> {
    if s.admin is None {
        Some(KoraError::NotInitialized)
    } else if s.admin != Some(caller) {
        Some(KoraError::NotAdmin)
    } else {
        None
    }
}

pub open spec fn initialize(
    s: State,
    admin: Address,
    invoice_nft: Address,
    financing_pool: Address,
    treasury: Address,
    fee_bps: u32,
) -> Outcome<State, StoreOp, ()> {
    if s.admin is Some {
        Outcome { result: Err(KoraError::AlreadyInitialized), state: s, log: Seq::empty() }
    } else if fee_bps > BPS_SCALE {
        Outcome { result: Err(KoraError::InvalidFeeRate), state: s, log: Seq::empty() }
    } else {
        Outcome {
            result: Ok(()),
            state: State {
                admin: Some(admin),
                invoice_nft: Some(invoice_nft),
                financing_pool: Some(financing_pool),
                treasury: Some(treasury),
                fee_bps: Some(fee_bps),
                ..s
            },
            log: seq![
                stored(StoreOp::SetAdmin(admin)),
                stored(StoreOp::SetInvoiceNft(invoice_nft)),
                stored(StoreOp::SetFinancingPool(financing_pool)),
                stored(StoreOp::SetTreasury(treasury)),
                stored(StoreOp::SetFeeBps(fee_bps)),
            ],
        }
    }
}

/// Why listing an invoice is refused.
pub open spec fn list_invoice_error(
    s: State,
    cx: Context,
    invoice_id: u64,
    asking_price: i128,
    face_value: i128,
    token: Address,
    funding_deadline: u64,
) -> Option<KoraError> {
    if cx.protocol_paused {
        Some(KoraError::ProtocolPaused)
    } else if asking_price <= 0 || face_value <= 0 {
        Some(KoraError::InvalidAmount)
    } else if funding_deadline <= cx.timestamp {
        Some(KoraError::InvalidDueDate)
    } else if asking_price >= face_value {
        Some(KoraError::InvalidAmount)
    } else if !whitelisted(s, token) {
        Some(KoraError::TokenNotWhitelisted)
    } else if s.listings.contains_key(invoice_id) {
        Some(KoraError::InvoiceAlreadyExists)
    } else {
        None
    }
}

pub open spec fn list_invoice(
    s: State,
    cx: Context,
    seller: Address,
    invoice_id: u64,
    asking_price: i128,
    face_value: i128,
    token: Address,
    funding_deadline: u64,
) -> Outcome<State, StoreOp, ()> {
    match list_invoice_error(
        s,
        cx,
        invoice_id,
        asking_price,
        face_value,
        token,
        funding_deadline,
    ) {
        Some(e) => refused(s, seller, e),
        None => {
            let listing = Listing {
                invoice_id,
                seller,
                asking_price,
                face_value,
                token,
                funded_amount: 0,
                funding_deadline,
                is_active: true,
            };
            Outcome {
                result: Ok(()),
                state: State { listings: s.listings.insert(invoice_id, listing), ..s },
                log: seq![
                    Step::RequireAuth(seller),
                    Step::Call(
                        Call::SetListed {
                            invoice_nft: s.invoice_nft->0,
                            caller: cx.contract,
                            invoice_id,
                        },
                    ),
                    stored(StoreOp::SetListing(invoice_id, listing)),
                    Step::Publish(
                        events::invoice_listed_event(cx, invoice_id, seller, asking_price),
                    ),
                ],
            }
        },
    }
}

/// What a listing still lacks.
pub open spec fn remaining(listing: Listing) -> int {
    listing.asking_price - listing.funded_amount
}

/// The fee on an amount.
pub open spec fn fee_on(s: State, amount: i128) -> i128 {
    share_of(amount as int, fee_rate(s) as int) as i128
}

/// Why funding an invoice is refused.
pub open spec fn fund_invoice_error(
    s: State,
    cx: Context,
    invoice_id: u64,
    amount: i128,
) -> Option<KoraError> {
    let listing = s.listings[invoice_id];
    if cx.protocol_paused {
        Some(KoraError::ProtocolPaused)
    } else if amount <= 0 {
        Some(KoraError::InvalidAmount)
    } else if !s.listings.contains_key(invoice_id) {
        Some(KoraError::ListingNotFound)
    } else if !listing.is_active {
        Some(KoraError::ListingAlreadyCancelled)
    } else if cx.timestamp > listing.funding_deadline {
        Some(KoraError::FundingDeadlinePassed)
    } else if !fits(remaining(listing)) {
        Some(KoraError::ArithmeticOverflow)
    } else if amount > remaining(listing) {
        Some(KoraError::ExceedsFundingTarget)
    } else if !fits(amount * fee_rate(s)) {
        Some(KoraError::ArithmeticOverflow)
    } else {
        None
    }
}

/// A listing after a contribution: it stays active until the asking price is
/// reached.
pub open spec fn funded(listing: Listing, amount: i128) -> Listing {
    Listing {
        funded_amount: (listing.funded_amount + amount) as i128,
        is_active: listing.funded_amount + amount < listing.asking_price,
        ..listing
    }
}

pub open spec fn fund_invoice(
    s: State,
    cx: Context,
    investor: Address,
    invoice_id: u64,
    amount: i128,
) -> Outcome<State, StoreOp, ()> {
    match fund_invoice_error(s, cx, invoice_id, amount) {
        Some(e) => refused(s, investor, e),
        None => {
            let listing = funded(s.listings[invoice_id], amount);
            let token = listing.token;
            let fee = fee_on(s, amount);
            let pool = s.financing_pool->0;
            Outcome {
                result: Ok(()),
                state: State { listings: s.listings.insert(invoice_id, listing), ..s },
                log: seq![
                    Step::RequireAuth(investor),
                    Step::Call(
                        Call::Transfer { token, from: investor, to: s.treasury->0, amount: fee },
                    ),
                    Step::Call(
                        Call::Transfer {
                            token,
                            from: investor,
                            to: pool,
                            amount: (amount - fee) as i128,
                        },
                    ),
                    stored(StoreOp::SetListing(invoice_id, listing)),
                    Step::Publish(events::invoice_funded_event(cx, invoice_id, investor, amount)),
                    Step::Publish(
                        events::fee_collected_event(cx, invoice_id, investor, fee, token),
                    ),
                ] + if listing.is_active {
                    Seq::empty()
                } else {
                    seq![
                        Step::Call(
                            Call::ReleaseFunds {
                                pool,
                                marketplace: cx.contract,
                                invoice_id,
                                token,
                            },
                        ),
                    ]
                },
            }
        },
    }
}

/// Why cancelling a listing is refused.
pub open spec fn cancel_listing_error(
    s: State,
    cx: Context,
    caller: Address,
    invoice_id: u64,
) -> Option<KoraError> {
    let listing = s.listings[invoice_id];
    if cx.protocol_paused {
        Some(KoraError::ProtocolPaused)
    } else if !s.listings.contains_key(invoice_id) {
        Some(KoraError::ListingNotFound)
    } else if !listing.is_active {
        Some(KoraError::ListingAlreadyCancelled)
    } else if caller != listing.seller && s.admin != Some(caller) {
        Some(KoraError::Unauthorized)
    } else {
        None
    }
}

pub open spec fn cancel_listing(
    s: State,
    cx: Context,
    caller: Address,
    invoice_id: u64,
) -> Outcome<State, StoreOp, ()> {
    match cancel_listing_error(s, cx, caller, invoice_id) {
        Some(e) => refused(s, caller, e),
        None => {
            let listing = Listing { is_active: false, ..s.listings[invoice_id] };
            Outcome {
                result: Ok(()),
                state: State { listings: s.listings.insert(invoice_id, listing), ..s },
                log: seq![
                    Step::RequireAuth(caller),
                    stored(StoreOp::SetListing(invoice_id, listing)),
                    Step::Publish(events::listing_cancelled_event(cx, invoice_id, caller)),
                ],
            }
        },
    }
}

/// Why whitelisting a token is refused.
pub open spec fn whitelist_token_error(s: State, cx: Context, admin: Address) -> Option<KoraError> {
    if cx.protocol_paused {
        Some(KoraError::ProtocolPaused)
    } else {
        admin_error(s, admin)
    }
}

pub open spec fn whitelist_token(s: State, cx: Context, admin: Address, token: Address) -> Outcome<
    State,
    StoreOp,
    (),
> {
    match whitelist_token_error(s, cx, admin) {
        Some(e) => refused(s, admin, e),
        None => Outcome {
            result: Ok(()),
            state: State { tokens: s.tokens.insert(token, true), ..s },
            log: seq![
                Step::RequireAuth(admin),
                stored(StoreOp::SetWhitelistedToken(token, true)),
            ],
        },
    }
}

/// A share of a positive amount is not negative and fits where the product
/// does.
pub proof fn lemma_fee_bounds(amount: i128, bps: u32)
    requires
        amount > 0,
        fits(amount * bps),
    ensures
        0 <= share_of(amount as int, bps as int) <= amount * bps,
        fits(share_of(amount as int, bps as int)),
        bps <= BPS_SCALE ==> share_of(amount as int, bps as int) <= amount,
{
    assert(0 <= amount * bps) by (nonlinear_arith)
        requires
            amount > 0,
    ;
    let product = amount * bps;
    assert(0 <= product / 10_000 <= product);
    if bps <= BPS_SCALE {
        assert(product <= amount * 10_000) by (nonlinear_arith)
            requires
                product == amount * bps,
                amount > 0,
                bps <= 10_000,
        ;
    }
}

} // verus!
