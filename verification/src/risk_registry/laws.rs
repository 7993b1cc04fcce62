//! What holds of the contract as a whole.

use vstd::prelude::*;

use crate::risk_registry::model::{
    self, add_verifier, bump, deployed, get_debtor_score, get_sme_profile, increment_invoice_count,
    initialize, is_verifier, record_default, register_sme, remove_verifier, set_debtor_score,
    transfer_admin, update_sme_score, Op, State,
};
use crate::risk_registry::{DataKey, StoreOp};
use crate::shared::errors::KoraError;
use crate::shared::host::{
    begins_with_authorization, lemma_first_steps, replay, Context, EffectView, Outcome, Step,
};
use crate::shared::types::{Address, SmeProfile};
use crate::shared::validation::MAX_RISK_SCORE;

verus! {

/// A request that can change what the contract stores.
pub enum Request {
    Initialize { admin: Address, invoice_nft: Address },
    TransferAdmin { current_admin: Address, new_admin: Address },
    AddVerifier { admin: Address, verifier: Address },
    RemoveVerifier { admin: Address, verifier: Address },
    RegisterSme { verifier: Address, sme: Address, risk_score: u32 },
    UpdateSmeScore { verifier: Address, sme: Address, new_score: u32 },
    IncrementInvoiceCount { caller: Address, sme: Address },
    RecordDefault { admin: Address, sme: Address },
    SetDebtorScore { verifier: Address, hash: Seq<u8>, score: u32 },
}

impl Request {
    /// Who makes the request: the one whose authorization it needs.
    pub open spec fn caller(self) -> Option<Address> {
        match self {
            Request::Initialize { .. } => None,
            Request::TransferAdmin { current_admin, .. } => Some(current_admin),
            Request::AddVerifier { admin, .. } => Some(admin),
            Request::RemoveVerifier { admin, .. } => Some(admin),
            Request::RegisterSme { verifier, .. } => Some(verifier),
            Request::UpdateSmeScore { verifier, .. } => Some(verifier),
            Request::IncrementInvoiceCount { caller, .. } => Some(caller),
            Request::RecordDefault { admin, .. } => Some(admin),
            Request::SetDebtorScore { verifier, .. } => Some(verifier),
        }
    }

    /// Whether only the admin may ask.
    pub open spec fn is_for_admin(self) -> bool {
        self is TransferAdmin || self is AddVerifier || self is RemoveVerifier
            || self is RecordDefault
    }

    /// Whether only a verifier may ask.
    pub open spec fn is_for_verifier(self) -> bool {
        self is RegisterSme || self is UpdateSmeScore || self is SetDebtorScore
    }
}

/// How a request ends.
pub open spec fn perform(s: State, cx: Context, request: Request) -> Outcome<State, Op, ()> {
    match request {
        Request::Initialize { admin, invoice_nft } => initialize(s, admin, invoice_nft),
        Request::TransferAdmin { current_admin, new_admin } => transfer_admin(
            s,
            current_admin,
            new_admin,
        ),
        Request::AddVerifier { admin, verifier } => add_verifier(s, cx, admin, verifier),
        Request::RemoveVerifier { admin, verifier } => remove_verifier(s, cx, admin, verifier),
        Request::RegisterSme { verifier, sme, risk_score } => register_sme(
            s,
            cx,
            verifier,
            sme,
            risk_score,
        ),
        Request::UpdateSmeScore { verifier, sme, new_score } => update_sme_score(
            s,
            cx,
            verifier,
            sme,
            new_score,
        ),
        Request::IncrementInvoiceCount { caller, sme } => increment_invoice_count(
            s,
            cx,
            caller,
            sme,
        ),
        Request::RecordDefault { admin, sme } => record_default(s, cx, admin, sme),
        Request::SetDebtorScore { verifier, hash, score } => set_debtor_score(
            s,
            cx,
            verifier,
            hash,
            score,
        ),
    }
}

/// The state of the contract after a history of requests.
pub open spec fn after(history: Seq<(Context, Request)>) -> State
    decreases history.len(),
{
    if history.len() == 0 {
        deployed()
    } else {
        perform(after(history.drop_last()), history.last().0, history.last().1).state
    }
}

/// Scores are in range, a profile is filed under its own address and is
/// verified, debtors have a hash, no operation is under way, and the admin and
/// the invoice contract are set together.
pub open spec fn consistent(s: State) -> bool {
    &&& !s.guard
    &&& s.admin is Some <==> s.invoice_nft is Some
    &&& forall|sme: Address| #[trigger]
        s.profiles.contains_key(sme) ==> s.profiles[sme].address == sme && s.profiles[sme].verified
            && s.profiles[sme].risk_score <= MAX_RISK_SCORE
    &&& forall|hash: Seq<u8>| #[trigger]
        s.debtor_scores.contains_key(hash) ==> hash.len() > 0 && s.debtor_scores[hash]
            <= MAX_RISK_SCORE
}

/// Every request keeps the contract consistent.
pub proof fn consistency_is_kept(s: State, cx: Context, request: Request)
    requires
        consistent(s),
    ensures
        consistent(perform(s, cx, request).state),
{
}

/// The contract is consistent after every history of requests.
pub proof fn always_consistent(history: Seq<(Context, Request)>)
    ensures
        consistent(after(history)),
    decreases history.len(),
{
    if history.len() > 0 {
        always_consistent(history.drop_last());
        consistency_is_kept(after(history.drop_last()), history.last().0, history.last().1);
    }
}

/// A request that fails changes nothing.
pub proof fn failure_changes_nothing(s: State, cx: Context, request: Request)
    ensures
        perform(s, cx, request).result is Err ==> perform(s, cx, request).state == s,
{
}

/// The caller's authorization comes first: before anything is stored, published
/// or called, and also where the request is refused.
pub proof fn authorization_comes_first(s: State, cx: Context, request: Request)
    ensures
        request.caller() matches Some(caller) ==> begins_with_authorization(
            perform(s, cx, request).log,
            caller,
        ),
{
}

/// The state that the steps of a log lead to.
pub open spec fn replayed(s: State, log: Seq<EffectView<Op>>) -> State {
    replay(|t: State, op: Op| model::apply(t, op), s, log, log.len() as int)
}

/// The storage steps that a request asks for lead to the state it ends in.
#[verifier::rlimit(40)]
pub proof fn steps_lead_to_the_state(s: State, cx: Context, request: Request)
    requires
        consistent(s),
    ensures
        replayed(s, perform(s, cx, request).log) == perform(s, cx, request).state,
{
    let log = perform(s, cx, request).log;
    lemma_first_steps(|t: State, op: Op| model::apply(t, op), s, log);
    match request {
        Request::Initialize { .. } => {},
        Request::TransferAdmin { .. } => {},
        Request::AddVerifier { .. } => {},
        Request::RemoveVerifier { .. } => {},
        Request::RegisterSme { .. } => {},
        Request::UpdateSmeScore { .. } => {},
        Request::IncrementInvoiceCount { .. } => {},
        Request::RecordDefault { .. } => {},
        Request::SetDebtorScore { .. } => {},
    }
}

/// An entry that is written has its lifetime extended at once.
#[verifier::rlimit(40)]
pub proof fn written_entries_are_extended(s: State, cx: Context, request: Request, i: int)
    requires
        0 <= i < perform(s, cx, request).log.len(),
    ensures
        ({
            let log = perform(s, cx, request).log;
            match log[i] {
                Step::Store(StoreOp::SetVerifier(verifier, _)) => i + 1 < log.len() && log[i + 1]
                    == bump(DataKey::Verifier(verifier)),
                Step::Store(StoreOp::SetSmeProfile(sme, _)) => i + 1 < log.len() && log[i + 1]
                    == bump(DataKey::SmeProfile(sme)),
                Step::Store(StoreOp::SetDebtorScore(hash, _)) => i + 1 < log.len() && log[i + 1]
                    == bump(DataKey::DebtorScore(hash)),
                _ => true,
            }
        }),
{
}

/// Only the admin may change who verifies, record defaults or hand the
/// registry over; anybody else is refused and changes nothing.
pub proof fn admin_requests_are_refused_to_others(s: State, cx: Context, request: Request)
    requires
        request.is_for_admin(),
        s.admin is Some,
        s.admin != request.caller(),
    ensures
        perform(s, cx, request).result == Err::<(), KoraError>(KoraError::NotAdmin),
        perform(s, cx, request).state == s,
{
}

/// Only a verifier may register or score; anybody else, the admin included, is
/// refused and changes nothing.
pub proof fn verifier_requests_are_refused_to_others(s: State, cx: Context, request: Request)
    requires
        request.is_for_verifier(),
        !is_verifier(s, request.caller()->0),
    ensures
        perform(s, cx, request).result == Err::<(), KoraError>(KoraError::NotVerifier),
        perform(s, cx, request).state == s,
{
}

/// Only the invoice contract may count invoices.
pub proof fn only_the_invoice_contract_counts(s: State, cx: Context, caller: Address, sme: Address)
    requires
        s.invoice_nft is Some,
        s.invoice_nft != Some(caller),
    ensures
        increment_invoice_count(s, cx, caller, sme).result == Err::<(), KoraError>(
            KoraError::Unauthorized,
        ),
        increment_invoice_count(s, cx, caller, sme).state == s,
{
}

/// Once there is an admin there always is one, only a transfer that the admin
/// asks for changes who it is, and initializing again is refused. The invoice
/// contract never changes.
pub proof fn admin_changes_only_by_transfer(s: State, cx: Context, request: Request)
    requires
        s.admin is Some,
    ensures
        ({
            let end = perform(s, cx, request);
            &&& end.state.admin is Some
            &&& end.state.invoice_nft == s.invoice_nft
            &&& end.state.admin != s.admin ==> {
                &&& request matches Request::TransferAdmin { current_admin, new_admin }
                &&& s.admin == Some(current_admin)
                &&& end.state.admin == Some(new_admin)
            }
            &&& request is Initialize ==> end.result == Err::<(), KoraError>(
                KoraError::AlreadyInitialized,
            )
        }),
{
}

/// After a transfer the new admin is served and the old one is not.
pub proof fn transfer_hands_everything_over(
    s: State,
    cx: Context,
    current_admin: Address,
    new_admin: Address,
    verifier: Address,
    request: Request,
)
    requires
        consistent(s),
        transfer_admin(s, current_admin, new_admin).result is Ok,
        request.is_for_admin(),
        request.caller() == Some(current_admin),
    ensures
        ({
            let t = transfer_admin(s, current_admin, new_admin).state;
            &&& t == (State { admin: Some(new_admin), ..s })
            &&& perform(t, cx, request).result == Err::<(), KoraError>(KoraError::NotAdmin)
            &&& add_verifier(t, cx, new_admin, verifier).result is Ok
        }),
{
}

/// A verifier that was added is one, a verifier that was removed is none, and
/// nobody else is concerned; what verifiers have recorded stays.
pub proof fn verifiers_come_and_go(
    s: State,
    cx: Context,
    admin: Address,
    verifier: Address,
    other: Address,
)
    requires
        consistent(s),
        s.admin == Some(admin),
    ensures
        ({
            let added = add_verifier(s, cx, admin, verifier);
            let removed = remove_verifier(added.state, cx, admin, verifier);
            &&& added.result is Ok && is_verifier(added.state, verifier)
            &&& removed.result is Ok && !is_verifier(removed.state, verifier)
            &&& other != verifier ==> is_verifier(added.state, other) == is_verifier(s, other)
                && is_verifier(removed.state, other) == is_verifier(s, other)
            &&& removed.state.profiles == s.profiles
            &&& removed.state.debtor_scores == s.debtor_scores
            &&& remove_verifier(removed.state, cx, admin, verifier).result == Err::<(), KoraError>(
                KoraError::NotVerifier,
            )
        }),
{
}

/// An SME that was registered has a profile with that score and no history.
/// Registering it again is refused, so its history cannot be reset.
pub proof fn registered_sme_is_found(
    s: State,
    cx: Context,
    verifier: Address,
    sme: Address,
    risk_score: u32,
    later: Context,
    other_score: u32,
)
    requires
        register_sme(s, cx, verifier, sme, risk_score).result is Ok,
    ensures
        ({
            let t = register_sme(s, cx, verifier, sme, risk_score).state;
            &&& get_sme_profile(t, sme) == Ok::<SmeProfile, KoraError>(
                model::new_profile(cx, verifier, sme, risk_score),
            )
            &&& other_score <= MAX_RISK_SCORE ==> register_sme(
                t,
                later,
                verifier,
                sme,
                other_score,
            ).result == Err::<(), KoraError>(KoraError::AlreadyInitialized)
        }),
{
}

/// A profile never goes away, its counts never shrink, and who registered it
/// when stays: a request changes at most one of score, invoices and defaults,
/// the counts by one.
pub proof fn history_is_kept(s: State, cx: Context, request: Request, sme: Address)
    requires
        s.profiles.contains_key(sme),
    ensures
        ({
            let old = s.profiles[sme];
            let new = perform(s, cx, request).state.profiles[sme];
            &&& perform(s, cx, request).state.profiles.contains_key(sme)
            &&& new.total_invoices == old.total_invoices || new.total_invoices
                == old.total_invoices + 1
            &&& new.defaults == old.defaults || new.defaults == old.defaults + 1
            &&& new == (SmeProfile { risk_score: new.risk_score, ..old }) || new == (SmeProfile {
                total_invoices: new.total_invoices,
                ..old
            }) || new == (SmeProfile { defaults: new.defaults, ..old })
        }),
{
}

/// Counting an invoice and recording a default add exactly one, and nothing
/// else; a new score is the score.
pub proof fn records_add_up(
    s: State,
    cx: Context,
    caller: Address,
    sme: Address,
    new_score: u32,
)
    ensures
        increment_invoice_count(s, cx, caller, sme).result is Ok ==> {
            let old = s.profiles[sme];
            increment_invoice_count(s, cx, caller, sme).state.profiles[sme] == (SmeProfile {
                total_invoices: (old.total_invoices + 1) as u32,
                ..old
            }) && old.total_invoices < u32::MAX
        },
        record_default(s, cx, caller, sme).result is Ok ==> {
            let old = s.profiles[sme];
            record_default(s, cx, caller, sme).state.profiles[sme] == (SmeProfile {
                defaults: (old.defaults + 1) as u32,
                ..old
            }) && old.defaults < u32::MAX
        },
        update_sme_score(s, cx, caller, sme, new_score).result is Ok ==> {
            let old = s.profiles[sme];
            update_sme_score(s, cx, caller, sme, new_score).state.profiles[sme] == (SmeProfile {
                risk_score: new_score,
                ..old
            })
        },
{
}

/// A request about one SME leaves all others alone, and debtors' scores too.
pub proof fn other_smes_are_untouched(s: State, cx: Context, request: Request, other: Address)
    requires
        match request {
            Request::RegisterSme { sme, .. } => sme != other,
            Request::UpdateSmeScore { sme, .. } => sme != other,
            Request::IncrementInvoiceCount { sme, .. } => sme != other,
            Request::RecordDefault { sme, .. } => sme != other,
            _ => true,
        },
    ensures
        perform(s, cx, request).state.profiles.get(other) == s.profiles.get(other),
        !(request is SetDebtorScore) ==> perform(s, cx, request).state.debtor_scores
            == s.debtor_scores,
{
}

/// A debtor's score is the one that was set last; other debtors keep theirs.
pub proof fn debtor_score_is_found(
    s: State,
    cx: Context,
    verifier: Address,
    hash: Seq<u8>,
    score: u32,
    other: Seq<u8>,
)
    requires
        set_debtor_score(s, cx, verifier, hash, score).result is Ok,
    ensures
        ({
            let t = set_debtor_score(s, cx, verifier, hash, score).state;
            &&& get_debtor_score(t, hash) == Ok::<u32, KoraError>(score)
            &&& other != hash ==> get_debtor_score(t, other) == get_debtor_score(s, other)
            &&& t.profiles == s.profiles
        }),
{
}

/// An operation that is guarded cannot be entered again from within one.
pub proof fn no_reentry(s: State, cx: Context, admin: Address, verifier: Address, sme: Address)
    requires
        s.guard,
        s.admin == Some(admin),
        is_verifier(s, verifier),
    ensures
        add_verifier(s, cx, admin, verifier).result == Err::<(), KoraError>(KoraError::Reentrancy),
        record_default(s, cx, admin, sme).result == Err::<(), KoraError>(KoraError::Reentrancy),
        update_sme_score(s, cx, verifier, sme, 0).result == Err::<(), KoraError>(
            KoraError::Reentrancy,
        ),
{
}

/// Whether two states agree on every entry that a request names.
pub open spec fn agree(s: State, t: State, request: Request) -> bool {
    &&& s.admin == t.admin && s.invoice_nft == t.invoice_nft && s.guard == t.guard
    &&& match request {
        Request::Initialize { .. } => true,
        Request::TransferAdmin { .. } => true,
        Request::AddVerifier { .. } => true,
        Request::RemoveVerifier { verifier, .. } => s.verifiers.get(verifier) == t.verifiers.get(
            verifier,
        ),
        Request::RegisterSme { verifier, sme, .. } => s.verifiers.get(verifier)
            == t.verifiers.get(verifier) && s.profiles.get(sme) == t.profiles.get(sme),
        Request::UpdateSmeScore { verifier, sme, .. } => s.verifiers.get(verifier)
            == t.verifiers.get(verifier) && s.profiles.get(sme) == t.profiles.get(sme),
        Request::IncrementInvoiceCount { sme, .. } => s.profiles.get(sme) == t.profiles.get(sme),
        Request::RecordDefault { sme, .. } => s.profiles.get(sme) == t.profiles.get(sme),
        Request::SetDebtorScore { verifier, .. } => s.verifiers.get(verifier) == t.verifiers.get(
            verifier,
        ),
    }
}

/// A request depends on nothing but the entries it names: where these are the
/// same it ends the same way and asks for the same steps.
pub proof fn only_named_entries_matter(s: State, t: State, cx: Context, request: Request)
    requires
        agree(s, t, request),
    ensures
        perform(s, cx, request).result == perform(t, cx, request).result,
        perform(s, cx, request).log == perform(t, cx, request).log,
{
}

} // verus!
