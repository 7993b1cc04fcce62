//! Verifiers, the SMEs they vouch for, and the scores of debtors.

use vstd::prelude::*;

use crate::shared::errors::KoraError;
use crate::shared::events;
use crate::shared::host::{Durability, Invocation};
use crate::shared::reentrancy::ReentrancyGuard;
use crate::shared::table::{Stored, Table};
use crate::shared::types::{Address, SmeProfile};
use crate::shared::validation::{require_non_empty_bytes, require_valid_risk_score};

pub mod laws;
pub mod model;
pub mod operations;

verus! {

/// Lifetime, in ledgers, below which an entry is extended (about 30 days).
pub const PERSISTENT_TTL_THRESHOLD: u32 = 518_400;

/// Lifetime, in ledgers, to which an entry is extended (about 30 days).
pub const PERSISTENT_TTL_BUMP: u32 = 518_400;

/// What the contract stores entries under; `B` is a string of bytes.
#[derive(Clone, Debug, PartialEq, Eq)]
pub enum DataKey<B> {
    Admin,
    /// The contract that may count invoices.
    InvoiceNft,
    Verifier(Address),
    SmeProfile(Address),
    /// The score of a debtor, by the hash of what identifies them.
    DebtorScore(B),
}

impl View for DataKey<Vec<u8>> {
    type V = DataKey<Seq<u8>>;

    open spec fn view(&self) -> DataKey<Seq<u8>> {
        match *self {
            DataKey::Admin => DataKey::Admin,
            DataKey::InvoiceNft => DataKey::InvoiceNft,
            DataKey::Verifier(address) => DataKey::Verifier(address),
            DataKey::SmeProfile(address) => DataKey::SmeProfile(address),
            DataKey::DebtorScore(hash) => DataKey::DebtorScore(hash@),
        }
    }
}

impl<B> DataKey<B> {
    pub open spec fn spec_durability(self) -> Durability {
        match self {
            DataKey::Admin => Durability::Instance,
            DataKey::InvoiceNft => Durability::Instance,
            _ => Durability::Persistent,
        }
    }

    /// The configuration lives with the contract instance; verifiers, profiles
    /// and scores are entries of their own.
    pub fn durability(&self) -> (r: Durability)
        ensures
            r == self.spec_durability(),
    {
        match self {
            DataKey::Admin => Durability::Instance,
            DataKey::InvoiceNft => Durability::Instance,
            _ => Durability::Persistent,
        }
    }
}

/// A change to the contract's storage; `B` is a string of bytes.
#[derive(Clone, Debug, PartialEq, Eq)]
pub enum StoreOp<B> {
    SetAdmin(Address),
    SetInvoiceNft(Address),
    SetGuard(bool),
    SetVerifier(Address, bool),
    RemoveVerifier(Address),
    SetSmeProfile(Address, SmeProfile),
    SetDebtorScore(B, u32),
    ExtendTtl { key: DataKey<B>, threshold: u32, extend_to: u32 },
}

impl View for StoreOp<Vec<u8>> {
    type V = StoreOp<Seq<u8>>;

    open spec fn view(&self) -> StoreOp<Seq<u8>> {
        match *self {
            StoreOp::SetAdmin(admin) => StoreOp::SetAdmin(admin),
            StoreOp::SetInvoiceNft(invoice_nft) => StoreOp::SetInvoiceNft(invoice_nft),
            StoreOp::SetGuard(entered) => StoreOp::SetGuard(entered),
            StoreOp::SetVerifier(address, trusted) => StoreOp::SetVerifier(address, trusted),
            StoreOp::RemoveVerifier(address) => StoreOp::RemoveVerifier(address),
            StoreOp::SetSmeProfile(sme, profile) => StoreOp::SetSmeProfile(sme, profile),
            StoreOp::SetDebtorScore(hash, score) => StoreOp::SetDebtorScore(hash@, score),
            StoreOp::ExtendTtl { key, threshold, extend_to } => StoreOp::ExtendTtl {
                key: key@,
                threshold,
                extend_to,
            },
        }
    }
}

/// The contract's storage: every entry that an invocation can read.
pub struct RiskRegistryContract {
    pub admin: Option<Address>,
    pub invoice_nft: Option<Address>,
    pub guard: ReentrancyGuard,
    pub verifiers: Table<Address, bool>,
    pub profiles: Table<Address, SmeProfile>,
    pub debtor_scores: Table<Vec<u8>, u32>,
}

impl RiskRegistryContract {
    /// The contract as it is deployed: not initialized.
    pub fn new() -> (r: Self)
        ensures
            r@ == model::deployed(),
    {
        RiskRegistryContract {
            admin: None,
            invoice_nft: None,
            guard: ReentrancyGuard::new(),
            verifiers: Table::new(),
            profiles: Table::new(),
            debtor_scores: Table::new(),
        }
    }

    /// One-time initialization. Sets the admin and the contract that may count
    /// invoices.
    pub fn initialize(
        &mut self,
        env: &mut Invocation<StoreOp<Vec<u8>>>,
        admin: Address,
        invoice_nft: Address,
    ) -> (r: Result<(), KoraError>)
        ensures
            model::initialize(old(self)@, admin, invoice_nft).reached(
                r,
                final(self)@,
                *old(env),
                *final(env),
            ),
    {
        if self.admin.is_some() {
            return Err(KoraError::AlreadyInitialized);
        }
        self.write(env, StoreOp::SetAdmin(admin));
        self.write(env, StoreOp::SetInvoiceNft(invoice_nft));
        Ok(())
    }

    /// The admin hands the registry over to another address.
    pub fn transfer_admin(
        &mut self,
        env: &mut Invocation<StoreOp<Vec<u8>>>,
        current_admin: Address,
        new_admin: Address,
    ) -> (r: Result<(), KoraError>)
        ensures
            model::transfer_admin(old(self)@, current_admin, new_admin).reached(
                r,
                final(self)@,
                *old(env),
                *final(env),
            ),
    {
        env.require_auth(current_admin);
        self.require_admin(&current_admin)?;
        if current_admin == new_admin {
            return Err(KoraError::InvalidAddress);
        }
        self.write(env, StoreOp::SetAdmin(new_admin));
        events::admin_transferred(env, &new_admin);
        Ok(())
    }

    /// The admin adds a trusted verifier.
    pub fn add_verifier(
        &mut self,
        env: &mut Invocation<StoreOp<Vec<u8>>>,
        admin: Address,
        verifier: Address,
    ) -> (r: Result<(), KoraError>)
        ensures
            model::add_verifier(old(self)@, old(env).context, admin, verifier).reached(
                r,
                final(self)@,
                *old(env),
                *final(env),
            ),
    {
        env.require_auth(admin);
        self.require_admin(&admin)?;
        self.guard.require_free()?;
        self.write(env, StoreOp::SetGuard(true));
        self.write(env, StoreOp::SetVerifier(verifier, true));
        self.bump_persistent(env, DataKey::Verifier(verifier));
        events::verifier_added(env, &admin, &verifier);
        self.write(env, StoreOp::SetGuard(false));
        Ok(())
    }

    /// The admin removes a verifier. Fails for an address that is none.
    pub fn remove_verifier(
        &mut self,
        env: &mut Invocation<StoreOp<Vec<u8>>>,
        admin: Address,
        verifier: Address,
    ) -> (r: Result<(), KoraError>)
        ensures
            model::remove_verifier(old(self)@, old(env).context, admin, verifier).reached(
                r,
                final(self)@,
                *old(env),
                *final(env),
            ),
    {
        env.require_auth(admin);
        self.require_admin(&admin)?;
        self.require_verifier(&verifier)?;
        self.write(env, StoreOp::RemoveVerifier(verifier));
        events::verifier_removed(env, &admin, &verifier);
        Ok(())
    }

    /// A verifier registers and scores an SME. Fails if the SME is already
    /// registered, which would reset its history.
    pub fn register_sme(
        &mut self,
        env: &mut Invocation<StoreOp<Vec<u8>>>,
        verifier: Address,
        sme: Address,
        risk_score: u32,
    ) -> (r: Result<(), KoraError>)
        ensures
            model::register_sme(old(self)@, old(env).context, verifier, sme, risk_score).reached(
                r,
                final(self)@,
                *old(env),
                *final(env),
            ),
    {
        env.require_auth(verifier);
        self.require_verifier(&verifier)?;
        require_valid_risk_score(risk_score)?;
        if self.profiles.has(&sme) {
            return Err(KoraError::AlreadyInitialized);
        }
        let profile = SmeProfile {
            address: sme,
            verified: true,
            verifier,
            risk_score,
            total_invoices: 0,
            defaults: 0,
            registered_at: env.context.timestamp,
        };
        self.write(env, StoreOp::SetSmeProfile(sme, profile));
        self.bump_persistent(env, DataKey::SmeProfile(sme));
        events::sme_registered(env, &verifier, &sme, risk_score);
        Ok(())
    }

    /// Updates an SME's risk score. Verifiers only.
    pub fn update_sme_score(
        &mut self,
        env: &mut Invocation<StoreOp<Vec<u8>>>,
        verifier: Address,
        sme: Address,
        new_score: u32,
    ) -> (r: Result<(), KoraError>)
        ensures
            model::update_sme_score(
                old(self)@,
                old(env).context,
                verifier,
                sme,
                new_score,
            ).reached(r, final(self)@, *old(env), *final(env)),
    {
        env.require_auth(verifier);
        self.require_verifier(&verifier)?;
        require_valid_risk_score(new_score)?;
        self.guard.require_free()?;
        let mut profile = self.get_sme_profile(sme)?;
        profile.risk_score = new_score;
        self.write(env, StoreOp::SetGuard(true));
        self.write(env, StoreOp::SetSmeProfile(sme, profile));
        self.bump_persistent(env, DataKey::SmeProfile(sme));
        events::sme_score_updated(env, &verifier, &sme, new_score);
        self.write(env, StoreOp::SetGuard(false));
        Ok(())
    }

    /// Counts another invoice of an SME. Only the invoice contract set at
    /// initialization may call this.
    pub fn increment_invoice_count(
        &mut self,
        env: &mut Invocation<StoreOp<Vec<u8>>>,
        caller: Address,
        sme: Address,
    ) -> (r: Result<(), KoraError>)
        ensures
            model::increment_invoice_count(old(self)@, old(env).context, caller, sme).reached(
                r,
                final(self)@,
                *old(env),
                *final(env),
            ),
    {
        env.require_auth(caller);
        self.require_invoice_nft(&caller)?;
        let mut profile = self.get_sme_profile(sme)?;
        profile.total_invoices = match profile.total_invoices.checked_add(1) {
            Some(total) => total,
            None => {
                return Err(KoraError::ArithmeticOverflow);
            },
        };
        self.write(env, StoreOp::SetSmeProfile(sme, profile));
        self.bump_persistent(env, DataKey::SmeProfile(sme));
        events::sme_invoice_count_incremented(env, &sme, profile.total_invoices);
        Ok(())
    }

    /// Records a default against an SME. Admin only.
    pub fn record_default(
        &mut self,
        env: &mut Invocation<StoreOp<Vec<u8>>>,
        admin: Address,
        sme: Address,
    ) -> (r: Result<(), KoraError>)
        ensures
            model::record_default(old(self)@, old(env).context, admin, sme).reached(
                r,
                final(self)@,
                *old(env),
                *final(env),
            ),
    {
        env.require_auth(admin);
        self.require_admin(&admin)?;
        self.guard.require_free()?;
        let mut profile = self.get_sme_profile(sme)?;
        profile.defaults = match profile.defaults.checked_add(1) {
            Some(defaults) => defaults,
            None => {
                return Err(KoraError::ArithmeticOverflow);
            },
        };
        self.write(env, StoreOp::SetGuard(true));
        self.write(env, StoreOp::SetSmeProfile(sme, profile));
        self.bump_persistent(env, DataKey::SmeProfile(sme));
        events::sme_default_recorded(env, &admin, &sme, profile.defaults);
        self.write(env, StoreOp::SetGuard(false));
        Ok(())
    }

    /// Stores a debtor's risk score under the debtor's hash. Verifiers only.
    pub fn set_debtor_score(
        &mut self,
        env: &mut Invocation<StoreOp<Vec<u8>>>,
        verifier: Address,
        debtor_hash: Vec<u8>,
        score: u32,
    ) -> (r: Result<(), KoraError>)
        ensures
            model::set_debtor_score(
                old(self)@,
                old(env).context,
                verifier,
                debtor_hash@,
                score,
            ).reached(r, final(self)@, *old(env), *final(env)),
    {
        env.require_auth(verifier);
        self.require_verifier(&verifier)?;
        require_non_empty_bytes(debtor_hash.as_slice())?;
        require_valid_risk_score(score)?;
        self.write(env, StoreOp::SetDebtorScore(debtor_hash.duplicate(), score));
        self.bump_persistent(env, DataKey::DebtorScore(debtor_hash.duplicate()));
        events::debtor_score_set(env, &verifier, &debtor_hash, score);
        Ok(())
    }

    pub fn get_sme_profile(&self, sme: Address) -> (r: Result<SmeProfile, KoraError>)
        ensures
            r == model::get_sme_profile(self@, sme),
    {
        self.profiles.get(&sme).ok_or(KoraError::SMENotRegistered)
    }

    pub fn is_verified_sme(&self, sme: Address) -> (r: bool)
        ensures
            r == (self@.profiles.contains_key(sme) && self@.profiles[sme].verified),
    {
        match self.profiles.get(&sme) {
            Some(profile) => profile.verified,
            None => false,
        }
    }

    pub fn is_verifier(&self, verifier: Address) -> (r: bool)
        ensures
            r == model::is_verifier(self@, verifier),
    {
        self.verifiers.get(&verifier).unwrap_or(false)
    }

    /// Returns the debtor's score, or an error if there is none.
    pub fn get_debtor_score(&self, debtor_hash: &Vec<u8>) -> (r: Result<u32, KoraError>)
        ensures
            r == model::get_debtor_score(self@, debtor_hash@),
    {
        self.debtor_scores.get(debtor_hash).ok_or(KoraError::DebtorNotRegistered)
    }

    pub fn get_admin(&self) -> (r: Result<Address, KoraError>)
        ensures
            r == model::get_admin(self@),
    {
        self.admin.ok_or(KoraError::NotInitialized)
    }

    fn require_admin(&self, caller: &Address) -> (r: Result<(), KoraError>)
        ensures
            r == match model::admin_error(self@, *caller) {
                Some(e) => Err::<(), KoraError>(e),
                None => Ok(()),
            },
    {
        match self.admin {
            None => Err(KoraError::NotInitialized),
            Some(admin) => {
                if admin != *caller {
                    return Err(KoraError::NotAdmin);
                }
                Ok(())
            },
        }
    }

    fn require_verifier(&self, caller: &Address) -> (r: Result<(), KoraError>)
        ensures
            r == if model::is_verifier(self@, *caller) {
                Ok(())
            } else {
                Err::<(), KoraError>(KoraError::NotVerifier)
            },
    {
        if !self.is_verifier(*caller) {
            return Err(KoraError::NotVerifier);
        }
        Ok(())
    }

    fn require_invoice_nft(&self, caller: &Address) -> (r: Result<(), KoraError>)
        ensures
            r == match model::invoice_nft_error(self@, *caller) {
                Some(e) => Err::<(), KoraError>(e),
                None => Ok(()),
            },
    {
        match self.invoice_nft {
            None => Err(KoraError::NotInitialized),
            Some(invoice_nft) => {
                if invoice_nft != *caller {
                    return Err(KoraError::Unauthorized);
                }
                Ok(())
            },
        }
    }

    /// Extends the lifetime of an entry, if it is below the threshold.
    fn bump_persistent(&self, env: &mut Invocation<StoreOp<Vec<u8>>>, key: DataKey<Vec<u8>>)
        ensures
            final(env).context == old(env).context,
            final(env).log() == old(env).log().push(model::bump(key@)),
    {
        env.store(
            StoreOp::ExtendTtl {
                key,
                threshold: PERSISTENT_TTL_THRESHOLD,
                extend_to: PERSISTENT_TTL_BUMP,
            },
        );
    }

    /// Changes the storage, here and at the host.
    fn write(&mut self, env: &mut Invocation<StoreOp<Vec<u8>>>, op: StoreOp<Vec<u8>>)
        ensures
            final(self)@ == model::apply(old(self)@, op@),
            final(env).context == old(env).context,
            final(env).log() == old(env).log().push(model::stored(op@)),
    {
        match &op {
            StoreOp::SetAdmin(admin) => {
                self.admin = Some(*admin);
            },
            StoreOp::SetInvoiceNft(invoice_nft) => {
                self.invoice_nft = Some(*invoice_nft);
            },
            StoreOp::SetGuard(entered) => {
                self.guard = ReentrancyGuard { entered: *entered };
            },
            StoreOp::SetVerifier(address, trusted) => {
                self.verifiers.set(*address, *trusted);
            },
            StoreOp::RemoveVerifier(address) => {
                self.verifiers.remove(address);
            },
            StoreOp::SetSmeProfile(sme, profile) => {
                self.profiles.set(*sme, *profile);
            },
            StoreOp::SetDebtorScore(hash, score) => {
                self.debtor_scores.set(hash.duplicate(), *score);
            },
            StoreOp::ExtendTtl { .. } => {},
        }
        env.store(op);
    }
}

} // verus!
