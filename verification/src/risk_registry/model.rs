//! The contract as a mathematical state machine.

use vstd::prelude::*;

use crate::risk_registry::{
    DataKey, RiskRegistryContract, StoreOp, PERSISTENT_TTL_BUMP, PERSISTENT_TTL_THRESHOLD,
};
use crate::shared::errors::KoraError;
use crate::shared::events;
use crate::shared::host::{refused, Context, EffectView, Outcome, Step};
use crate::shared::types::{Address, SmeProfile};
use crate::shared::validation::MAX_RISK_SCORE;

verus! {

/// What the contract stores.
#[verifier::ext_equal]
pub struct State {
    pub admin: Option<Address>,
    pub invoice_nft: Option<Address>,
    pub guard: bool,
    pub verifiers: Map<Address, bool>,
    pub profiles: Map<Address, SmeProfile>,
    pub debtor_scores: Map<Seq<u8>, u32>,
}

pub type Op = StoreOp<Seq<u8>>;

impl View for RiskRegistryContract {
    type V = State;

    open spec fn view(&self) -> State {
        State {
            admin: self.admin,
            invoice_nft: self.invoice_nft,
            guard: self.guard.entered,
            verifiers: self.verifiers@,
            profiles: self.profiles@,
            debtor_scores: self.debtor_scores@,
        }
    }
}

pub open spec fn deployed() -> State {
    State {
        admin: None,
        invoice_nft: None,
        guard: false,
        verifiers: Map::empty(),
        profiles: Map::empty(),
        debtor_scores: Map::empty(),
    }
}

/// What a storage step does to the state.
pub open spec fn apply(s: State, op: Op) -> State {
    match op {
        StoreOp::SetAdmin(admin) => State { admin: Some(admin), ..s },
        StoreOp::SetInvoiceNft(invoice_nft) => State { invoice_nft: Some(invoice_nft), ..s },
        StoreOp::SetGuard(entered) => State { guard: entered, ..s },
        StoreOp::SetVerifier(address, trusted) => State {
            verifiers: s.verifiers.insert(address, trusted),
            ..s
        },
        StoreOp::RemoveVerifier(address) => State { verifiers: s.verifiers.remove(address), ..s },
        StoreOp::SetSmeProfile(sme, profile) => State {
            profiles: s.profiles.insert(sme, profile),
            ..s
        },
        StoreOp::SetDebtorScore(hash, score) => State {
            debtor_scores: s.debtor_scores.insert(hash, score),
            ..s
        },
        StoreOp::ExtendTtl { .. } => s,
    }
}

pub open spec fn stored(op: Op) -> EffectView<Op> {
    Step::Store(op)
}

/// The step that extends the lifetime of an entry.
pub open spec fn bump(key: DataKey<Seq<u8>>) -> EffectView<Op> {
    stored(
        StoreOp::ExtendTtl {
            key,
            threshold: PERSISTENT_TTL_THRESHOLD,
            extend_to: PERSISTENT_TTL_BUMP,
        },
    )
}

pub open spec fn is_verifier(s: State, address: Address) -> bool {
    s.verifiers.get(address) == Some(true)
}

pub open spec fn get_sme_profile(s: State, sme: Address) -> Result<SmeProfile, KoraError> {
    match s.profiles.get(sme) {
        Some(profile) => Ok(profile),
        None => Err(KoraError::SMENotRegistered),
    }
}

pub open spec fn get_debtor_score(s: State, hash: Seq<u8>) -> Result<u32, KoraError> {
    match s.debtor_scores.get(hash) {
        Some(score) => Ok(score),
        None => Err(KoraError::DebtorNotRegistered),
    }
}

pub open spec fn get_admin(s: State) -> Result<Address, KoraError> {
    match s.admin {
        Some(admin) => Ok(admin),
        None => Err(KoraError::NotInitialized),
    }
}

/// Why a request that only the admin may make is refused to the caller.
pub open spec fn admin_error(s: State, caller: Address) -> Option<KoraError> {
    if s.admin is None {
        Some(KoraError::NotInitialized)
    } else if s.admin != Some(caller) {
        Some(KoraError::NotAdmin)
    } else {
        None
    }
}

/// Why a request that only the invoice contract may make is refused.
pub open spec fn invoice_nft_error(s: State, caller: Address) -> Option<KoraError> {
    if s.invoice_nft is None {
        Some(KoraError::NotInitialized)
    } else if s.invoice_nft != Some(caller) {
        Some(KoraError::Unauthorized)
    } else {
        None
    }
}

pub open spec fn initialize(s: State, admin: Address, invoice_nft: Address) -> Outcome<
    State,
    Op,
    (),
> {
    if s.admin is Some {
        Outcome { result: Err(KoraError::AlreadyInitialized), state: s, log: Seq::empty() }
    } else {
        Outcome {
            result: Ok(()),
            state: State { admin: Some(admin), invoice_nft: Some(invoice_nft), ..s },
            log: seq![
                stored(StoreOp::SetAdmin(admin)),
                stored(StoreOp::SetInvoiceNft(invoice_nft)),
            ],
        }
    }
}

/// Why handing the registry over is refused.
pub open spec fn transfer_admin_error(
    s: State,
    current_admin: Address,
    new_admin: Address,
) -> Option<KoraError> {
    if admin_error(s, current_admin) is Some {
        admin_error(s, current_admin)
    } else if current_admin == new_admin {
        Some(KoraError::InvalidAddress)
    } else {
        None
    }
}

pub open spec fn transfer_admin(
    s: State,
    current_admin: Address,
    new_admin: Address,
) -> Outcome<State, Op, ()> {
    match transfer_admin_error(s, current_admin, new_admin) {
        Some(e) => refused(s, current_admin, e),
        None => Outcome {
            result: Ok(()),
            state: State { admin: Some(new_admin), ..s },
            log: seq![
                Step::RequireAuth(current_admin),
                stored(StoreOp::SetAdmin(new_admin)),
                Step::Publish(events::admin_transferred_event(new_admin)),
            ],
        },
    }
}

/// Why adding a verifier is refused.
pub open spec fn add_verifier_error(s: State, admin: Address) -> Option<KoraError> {
    if admin_error(s, admin) is Some {
        admin_error(s, admin)
    } else if s.guard {
        Some(KoraError::Reentrancy)
    } else {
        None
    }
}

pub open spec fn add_verifier(s: State, cx: Context, admin: Address, verifier: Address) -> Outcome<
    State,
    Op,
    (),
> {
    match add_verifier_error(s, admin) {
        Some(e) => refused(s, admin, e),
        None => Outcome {
            result: Ok(()),
            state: State { verifiers: s.verifiers.insert(verifier, true), ..s },
            log: seq![
                Step::RequireAuth(admin),
                stored(StoreOp::SetGuard(true)),
                stored(StoreOp::SetVerifier(verifier, true)),
                bump(DataKey::Verifier(verifier)),
                Step::Publish(events::verifier_added_event(cx, admin, verifier)),
                stored(StoreOp::SetGuard(false)),
            ],
        },
    }
}

/// Why removing a verifier is refused.
pub open spec fn remove_verifier_error(
    s: State,
    admin: Address,
    verifier: Address,
) -> Option<KoraError> {
    if admin_error(s, admin) is Some {
        admin_error(s, admin)
    } else if !is_verifier(s, verifier) {
        Some(KoraError::NotVerifier)
    } else {
        None
    }
}

pub open spec fn remove_verifier(
    s: State,
    cx: Context,
    admin: Address,
    verifier: Address,
) -> Outcome<State, Op, ()> {
    match remove_verifier_error(s, admin, verifier) {
        Some(e) => refused(s, admin, e),
        None => Outcome {
            result: Ok(()),
            state: State { verifiers: s.verifiers.remove(verifier), ..s },
            log: seq![
                Step::RequireAuth(admin),
                stored(StoreOp::RemoveVerifier(verifier)),
                Step::Publish(events::verifier_removed_event(cx, admin, verifier)),
            ],
        },
    }
}

/// Why registering an SME is refused.
pub open spec fn register_sme_error(
    s: State,
    verifier: Address,
    sme: Address,
    risk_score: u32,
) -> Option<KoraError> {
    if !is_verifier(s, verifier) {
        Some(KoraError::NotVerifier)
    } else if risk_score > MAX_RISK_SCORE {
        Some(KoraError::InvalidRiskScore)
    } else if s.profiles.contains_key(sme) {
        Some(KoraError::AlreadyInitialized)
    } else {
        None
    }
}

/// The profile of an SME that was just registered.
pub open spec fn new_profile(
    cx: Context,
    verifier: Address,
    sme: Address,
    risk_score: u32,
) -> SmeProfile {
    SmeProfile {
        address: sme,
        verified: true,
        verifier,
        risk_score,
        total_invoices: 0,
        defaults: 0,
        registered_at: cx.timestamp,
    }
}

pub open spec fn register_sme(
    s: State,
    cx: Context,
    verifier: Address,
    sme: Address,
    risk_score: u32,
) -> Outcome<State, Op, ()> {
    match register_sme_error(s, verifier, sme, risk_score) {
        Some(e) => refused(s, verifier, e),
        None => {
            let profile = new_profile(cx, verifier, sme, risk_score);
            Outcome {
                result: Ok(()),
                state: State { profiles: s.profiles.insert(sme, profile), ..s },
                log: seq![
                    Step::RequireAuth(verifier),
                    stored(StoreOp::SetSmeProfile(sme, profile)),
                    bump(DataKey::SmeProfile(sme)),
                    Step::Publish(events::sme_registered_event(cx, verifier, sme, risk_score)),
                ],
            }
        },
    }
}

/// Why updating a score is refused.
pub open spec fn update_sme_score_error(
    s: State,
    verifier: Address,
    sme: Address,
    new_score: u32,
) -> Option<KoraError> {
    if !is_verifier(s, verifier) {
        Some(KoraError::NotVerifier)
    } else if new_score > MAX_RISK_SCORE {
        Some(KoraError::InvalidRiskScore)
    } else if s.guard {
        Some(KoraError::Reentrancy)
    } else if !s.profiles.contains_key(sme) {
        Some(KoraError::SMENotRegistered)
    } else {
        None
    }
}

pub open spec fn update_sme_score(
    s: State,
    cx: Context,
    verifier: Address,
    sme: Address,
    new_score: u32,
) -> Outcome<State, Op, ()> {
    match update_sme_score_error(s, verifier, sme, new_score) {
        Some(e) => refused(s, verifier, e),
        None => {
            let profile = SmeProfile { risk_score: new_score, ..s.profiles[sme] };
            Outcome {
                result: Ok(()),
                state: State { profiles: s.profiles.insert(sme, profile), ..s },
                log: seq![
                    Step::RequireAuth(verifier),
                    stored(StoreOp::SetGuard(true)),
                    stored(StoreOp::SetSmeProfile(sme, profile)),
                    bump(DataKey::SmeProfile(sme)),
                    Step::Publish(events::sme_score_updated_event(cx, verifier, sme, new_score)),
                    stored(StoreOp::SetGuard(false)),
                ],
            }
        },
    }
}

/// Why counting an invoice is refused.
pub open spec fn increment_invoice_count_error(
    s: State,
    caller: Address,
    sme: Address,
) -> Option<KoraError> {
    if invoice_nft_error(s, caller) is Some {
        invoice_nft_error(s, caller)
    } else if !s.profiles.contains_key(sme) {
        Some(KoraError::SMENotRegistered)
    } else if s.profiles[sme].total_invoices == u32::MAX {
        Some(KoraError::ArithmeticOverflow)
    } else {
        None
    }
}

pub open spec fn increment_invoice_count(
    s: State,
    cx: Context,
    caller: Address,
    sme: Address,
) -> Outcome<State, Op, ()> {
    match increment_invoice_count_error(s, caller, sme) {
        Some(e) => refused(s, caller, e),
        None => {
            let total = (s.profiles[sme].total_invoices + 1) as u32;
            let profile = SmeProfile { total_invoices: total, ..s.profiles[sme] };
            Outcome {
                result: Ok(()),
                state: State { profiles: s.profiles.insert(sme, profile), ..s },
                log: seq![
                    Step::RequireAuth(caller),
                    stored(StoreOp::SetSmeProfile(sme, profile)),
                    bump(DataKey::SmeProfile(sme)),
                    Step::Publish(events::sme_invoice_count_incremented_event(cx, sme, total)),
                ],
            }
        },
    }
}

/// Why recording a default is refused.
pub open spec fn record_default_error(s: State, admin: Address, sme: Address) -> Option<KoraError> {
    if admin_error(s, admin) is Some {
        admin_error(s, admin)
    } else if s.guard {
        Some(KoraError::Reentrancy)
    } else if !s.profiles.contains_key(sme) {
        Some(KoraError::SMENotRegistered)
    } else if s.profiles[sme].defaults == u32::MAX {
        Some(KoraError::ArithmeticOverflow)
    } else {
        None
    }
}

pub open spec fn record_default(s: State, cx: Context, admin: Address, sme: Address) -> Outcome<
    State,
    Op,
    (),
> {
    match record_default_error(s, admin, sme) {
        Some(e) => refused(s, admin, e),
        None => {
            let defaults = (s.profiles[sme].defaults + 1) as u32;
            let profile = SmeProfile { defaults, ..s.profiles[sme] };
            Outcome {
                result: Ok(()),
                state: State { profiles: s.profiles.insert(sme, profile), ..s },
                log: seq![
                    Step::RequireAuth(admin),
                    stored(StoreOp::SetGuard(true)),
                    stored(StoreOp::SetSmeProfile(sme, profile)),
                    bump(DataKey::SmeProfile(sme)),
                    Step::Publish(events::sme_default_recorded_event(cx, admin, sme, defaults)),
                    stored(StoreOp::SetGuard(false)),
                ],
            }
        },
    }
}

/// Why setting a debtor's score is refused.
pub open spec fn set_debtor_score_error(
    s: State,
    verifier: Address,
    hash: Seq<u8>,
    score: u32,
) -> Option<KoraError> {
    if !is_verifier(s, verifier) {
        Some(KoraError::NotVerifier)
    } else if hash.len() == 0 {
        Some(KoraError::EmptyBytes)
    } else if score > MAX_RISK_SCORE {
        Some(KoraError::InvalidRiskScore)
    } else {
        None
    }
}

pub open spec fn set_debtor_score(
    s: State,
    cx: Context,
    verifier: Address,
    hash: Seq<u8>,
    score: u32,
) -> Outcome<State, Op, ()> {
    match set_debtor_score_error(s, verifier, hash, score) {
        Some(e) => refused(s, verifier, e),
        None => Outcome {
            result: Ok(()),
            state: State { debtor_scores: s.debtor_scores.insert(hash, score), ..s },
            log: seq![
                Step::RequireAuth(verifier),
                stored(StoreOp::SetDebtorScore(hash, score)),
                bump(DataKey::DebtorScore(hash)),
                Step::Publish(events::debtor_score_set_event(cx, verifier, hash, score)),
            ],
        },
    }
}

} // verus!
