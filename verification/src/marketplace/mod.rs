//! Listing invoices for financing, and funding them.

use vstd::prelude::*;

use crate::shared::errors::KoraError;
use crate::shared::events;
use crate::shared::host::{Call, Durability, Invocation};
use crate::shared::table::Table;
use crate::shared::types::{Address, Listing};
use crate::shared::validation::{
    bps_of, require_future_timestamp, require_non_zero_amount, require_valid_fee_bps,
};

pub mod laws;
pub mod model;
pub mod operations;

verus! {

/// The fee where none is stored, in basis points.
pub const DEFAULT_FEE_BPS: u32 = 50;

/// What the contract stores entries under.
#[derive(Clone, Copy, Debug, PartialEq, Eq, Structural)]
pub enum DataKey {
    Listing(u64),
    Admin,
    InvoiceNft,
    FinancingPool,
    Treasury,
    FeeBps,
    WhitelistedToken(Address),
}

impl DataKey {
    pub open spec fn spec_durability(self) -> Durability {
        match self {
            DataKey::Listing(_) => Durability::Persistent,
            DataKey::WhitelistedToken(_) => Durability::Persistent,
            _ => Durability::Instance,
        }
    }

    /// Listings and whitelisted tokens are entries of their own; the
    /// configuration lives with the contract instance.
    pub fn durability(self) -> (r: Durability)
        ensures
            r == self.spec_durability(),
    {
        match self {
            DataKey::Listing(_) => Durability::Persistent,
            DataKey::WhitelistedToken(_) => Durability::Persistent,
            _ => Durability::Instance,
        }
    }
}

/// A change to the contract's storage.
#[derive(Clone, Copy, Debug, PartialEq, Eq, Structural)]
pub enum StoreOp {
    SetAdmin(Address),
    SetInvoiceNft(Address),
    SetFinancingPool(Address),
    SetTreasury(Address),
    SetFeeBps(u32),
    SetWhitelistedToken(Address, bool),
    SetListing(u64, Listing),
}

impl View for StoreOp {
    type V = StoreOp;

    open spec fn view(&self) -> StoreOp {
        *self
    }
}

/// The contract's storage: every entry that an invocation can read.
pub struct MarketplaceContract {
    pub admin: Option<Address>,
    pub invoice_nft: Option<Address>,
    pub financing_pool: Option<Address>,
    pub treasury: Option<Address>,
    pub fee_bps: Option<u32>,
    pub tokens: Table<Address, bool>,
    pub listings: Table<u64, Listing>,
}

impl MarketplaceContract {
    /// The contract as it is deployed: not initialized.
    pub fn new() -> (r: Self)
        ensures
            r@ == model::deployed(),
            r@.wf(),
    {
        MarketplaceContract {
            admin: None,
            invoice_nft: None,
            financing_pool: None,
            treasury: None,
            fee_bps: None,
            tokens: Table::new(),
            listings: Table::new(),
        }
    }

    /// Whether the storage is one that the contract's operations lead to: it
    /// is configured whole or not at all, and it holds entries only once it is.
    pub fn is_wf(&self) -> (r: bool)
        ensures
            r == self@.wf(),
    {
        if self.admin.is_some() {
            self.invoice_nft.is_some() && self.financing_pool.is_some() && self.treasury.is_some()
        } else {
            self.tokens.is_empty() && self.listings.is_empty()
        }
    }

    pub fn initialize(
        &mut self,
        env: &mut Invocation<StoreOp>,
        admin: Address,
        invoice_nft: Address,
        financing_pool: Address,
        treasury: Address,
        fee_bps: u32,
    ) -> (r: Result<(), KoraError>)
        ensures
            model::initialize(
                old(self)@,
                admin,
                invoice_nft,
                financing_pool,
                treasury,
                fee_bps,
            ).reached(r, final(self)@, *old(env), *final(env)),
            old(self)@.wf() ==> final(self)@.wf(),
    {
        if self.admin.is_some() {
            return Err(KoraError::AlreadyInitialized);
        }
        require_valid_fee_bps(fee_bps)?;
        self.write(env, StoreOp::SetAdmin(admin));
        self.write(env, StoreOp::SetInvoiceNft(invoice_nft));
        self.write(env, StoreOp::SetFinancingPool(financing_pool));
        self.write(env, StoreOp::SetTreasury(treasury));
        self.write(env, StoreOp::SetFeeBps(fee_bps));
        Ok(())
    }

    /// The seller lists an invoice for financing.
    pub fn list_invoice(
        &mut self,
        env: &mut Invocation<StoreOp>,
        seller: Address,
        invoice_id: u64,
        asking_price: i128,
        face_value: i128,
        token: Address,
        funding_deadline: u64,
    ) -> (r: Result<(), KoraError>)
        requires
            old(self)@.wf(),
        ensures
            model::list_invoice(
                old(self)@,
                old(env).context,
                seller,
                invoice_id,
                asking_price,
                face_value,
                token,
                funding_deadline,
            ).reached(r, final(self)@, *old(env), *final(env)),
            final(self)@.wf(),
    {
        env.require_auth(seller);
        Self::require_not_paused(env)?;
        require_non_zero_amount(asking_price)?;
        require_non_zero_amount(face_value)?;
        require_future_timestamp(env.context.timestamp, funding_deadline)?;
        // A discount must exist.
        if asking_price >= face_value {
            return Err(KoraError::InvalidAmount);
        }
        self.require_whitelisted_token(&token)?;
        if self.listings.has(&invoice_id) {
            return Err(KoraError::InvoiceAlreadyExists);
        }
        let invoice_nft = self.invoice_nft.unwrap();
        env.call(Call::SetListed { invoice_nft, caller: env.context.contract, invoice_id });
        let listing = Listing {
            invoice_id,
            seller,
            asking_price,
            face_value,
            token,
            funded_amount: 0,
            funding_deadline,
            is_active: true,
        };
        self.write(env, StoreOp::SetListing(invoice_id, listing));
        events::invoice_listed(env, invoice_id, &seller, asking_price);
        Ok(())
    }

    /// An investor funds a share of the invoice: the fee goes to the treasury,
    /// the rest to the financing pool. The pool is told once the asking price
    /// is reached.
    pub fn fund_invoice(
        &mut self,
        env: &mut Invocation<StoreOp>,
        investor: Address,
        invoice_id: u64,
        amount: i128,
    ) -> (r: Result<(), KoraError>)
        requires
            old(self)@.wf(),
        ensures
            model::fund_invoice(
                old(self)@,
                old(env).context,
                investor,
                invoice_id,
                amount,
            ).reached(r, final(self)@, *old(env), *final(env)),
            final(self)@.wf(),
    {
        env.require_auth(investor);
        Self::require_not_paused(env)?;
        require_non_zero_amount(amount)?;
        let mut listing = self.get_listing(invoice_id)?;
        if !listing.is_active {
            return Err(KoraError::ListingAlreadyCancelled);
        }
        if env.context.timestamp > listing.funding_deadline {
            return Err(KoraError::FundingDeadlinePassed);
        }
        let remaining = match listing.asking_price.checked_sub(listing.funded_amount) {
            Some(remaining) => remaining,
            None => {
                return Err(KoraError::ArithmeticOverflow);
            },
        };
        if amount > remaining {
            return Err(KoraError::ExceedsFundingTarget);
        }
        let fee_bps = self.fee_bps.unwrap_or(DEFAULT_FEE_BPS);
        let fee = bps_of(amount, fee_bps)?;
        proof {
            model::lemma_fee_bounds(amount, fee_bps);
        }
        let net: i128 = amount - fee;
        let treasury = self.treasury.unwrap();
        let pool = self.financing_pool.unwrap();
        env.call(
            Call::Transfer { token: listing.token, from: investor, to: treasury, amount: fee },
        );
        env.call(Call::Transfer { token: listing.token, from: investor, to: pool, amount: net });
        listing.funded_amount = listing.funded_amount + amount;
        let fully_funded = listing.funded_amount >= listing.asking_price;
        if fully_funded {
            listing.is_active = false;
        }
        self.write(env, StoreOp::SetListing(invoice_id, listing));
        events::invoice_funded(env, invoice_id, &investor, amount);
        events::fee_collected(env, invoice_id, &investor, fee, &listing.token);
        if fully_funded {
            env.call(
                Call::ReleaseFunds {
                    pool,
                    marketplace: env.context.contract,
                    invoice_id,
                    token: listing.token,
                },
            );
        }
        Ok(())
    }

    /// The seller or the admin cancels a listing before it is fully funded.
    pub fn cancel_listing(
        &mut self,
        env: &mut Invocation<StoreOp>,
        caller: Address,
        invoice_id: u64,
    ) -> (r: Result<(), KoraError>)
        requires
            old(self)@.wf(),
        ensures
            model::cancel_listing(old(self)@, old(env).context, caller, invoice_id).reached(
                r,
                final(self)@,
                *old(env),
                *final(env),
            ),
            final(self)@.wf(),
    {
        env.require_auth(caller);
        Self::require_not_paused(env)?;
        let mut listing = self.get_listing(invoice_id)?;
        if !listing.is_active {
            return Err(KoraError::ListingAlreadyCancelled);
        }
        let admin = self.admin.unwrap();
        if caller != listing.seller && caller != admin {
            return Err(KoraError::Unauthorized);
        }
        listing.is_active = false;
        self.write(env, StoreOp::SetListing(invoice_id, listing));
        events::listing_cancelled(env, invoice_id, &caller);
        Ok(())
    }

    /// Whitelists a stablecoin token for use in listings. Admin only.
    pub fn whitelist_token(
        &mut self,
        env: &mut Invocation<StoreOp>,
        admin: Address,
        token: Address,
    ) -> (r: Result<(), KoraError>)
        ensures
            model::whitelist_token(old(self)@, old(env).context, admin, token).reached(
                r,
                final(self)@,
                *old(env),
                *final(env),
            ),
            old(self)@.wf() ==> final(self)@.wf(),
    {
        env.require_auth(admin);
        Self::require_not_paused(env)?;
        self.require_admin(&admin)?;
        self.write(env, StoreOp::SetWhitelistedToken(token, true));
        Ok(())
    }

    pub fn get_listing(&self, invoice_id: u64) -> (r: Result<Listing, KoraError>)
        ensures
            r == model::get_listing(self@, invoice_id),
    {
        self.listings.get(&invoice_id).ok_or(KoraError::ListingNotFound)
    }

    fn require_not_paused(env: &Invocation<StoreOp>) -> (r: Result<(), KoraError>)
        ensures
            r == if env.context.protocol_paused {
                Err::<(), KoraError>(KoraError::ProtocolPaused)
            } else {
                Ok(())
            },
    {
        if env.context.protocol_paused {
            return Err(KoraError::ProtocolPaused);
        }
        Ok(())
    }

    fn require_whitelisted_token(&self, token: &Address) -> (r: Result<(), KoraError>)
        ensures
            r == if model::whitelisted(self@, *token) {
                Ok(())
            } else {
                Err::<(), KoraError>(KoraError::TokenNotWhitelisted)
            },
    {
        if !self.tokens.get(token).unwrap_or(false) {
            return Err(KoraError::TokenNotWhitelisted);
        }
        Ok(())
    }

    /// Fails unless the caller is the admin.
    pub fn require_admin(&self, caller: &Address) -> (r: Result<(), KoraError>)
        ensures
            r == match model::admin_error(self@, *caller) {
                Some(e) => Err::<(), KoraError>(e),
                None => Ok(()),
            },
    {
        match self.admin {
            None => Err(KoraError::NotInitialized),
            Some(admin) => {
                if admin != *caller {
                    return Err(KoraError::NotAdmin);
                }
                Ok(())
            },
        }
    }

    /// Changes the storage, here and at the host.
    fn write(&mut self, env: &mut Invocation<StoreOp>, op: StoreOp)
        ensures
            final(self)@ == model::apply(old(self)@, op),
            final(env).context == old(env).context,
            final(env).log() == old(env).log().push(model::stored(op)),
    {
        match op {
            StoreOp::SetAdmin(admin) => {
                self.admin = Some(admin);
            },
            StoreOp::SetInvoiceNft(invoice_nft) => {
                self.invoice_nft = Some(invoice_nft);
            },
            StoreOp::SetFinancingPool(financing_pool) => {
                self.financing_pool = Some(financing_pool);
            },
            StoreOp::SetTreasury(treasury) => {
                self.treasury = Some(treasury);
            },
            StoreOp::SetFeeBps(fee_bps) => {
                self.fee_bps = Some(fee_bps);
            },
            StoreOp::SetWhitelistedToken(token, allowed) => {
                self.tokens.set(token, allowed);
            },
            StoreOp::SetListing(invoice_id, listing) => {
                self.listings.set(invoice_id, listing);
            },
        }
        env.store(op);
    }
}

} // verus!
