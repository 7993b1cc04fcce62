//! What each operation promises, in terms of its inputs: when it succeeds, why
//! it is refused, what it changes and what it asks of the host.

use vstd::prelude::*;

use crate::risk_registry::model::{
    add_verifier, deployed, get_admin, get_debtor_score, get_sme_profile, increment_invoice_count,
    initialize, is_verifier, record_default, register_sme, remove_verifier, set_debtor_score,
    transfer_admin, update_sme_score, Op, State,
};
use crate::risk_registry::{DataKey, RiskRegistryContract, StoreOp};
use crate::shared::errors::KoraError;
use crate::shared::events::{EventView, Shape, Topic, Value};
use crate::shared::host::{Context, Durability, EffectView, Step};
use crate::shared::types::{Address, SmeProfile};

verus! {

/// The state is what is stored.
pub proof fn state_is_what_is_stored(contract: RiskRegistryContract)
    ensures
        contract@.admin == contract.admin,
        contract@.invoice_nft == contract.invoice_nft,
        contract@.guard == contract.guard.entered,
        contract@.verifiers == contract.verifiers@,
        contract@.profiles == contract.profiles@,
        contract@.debtor_scores == contract.debtor_scores@,
{
}

/// A key is told as it is.
pub proof fn key_is_told(key: DataKey<Vec<u8>>)
    ensures
        key is Admin ==> key@ == DataKey::<Seq<u8>>::Admin,
        key is InvoiceNft ==> key@ == DataKey::<Seq<u8>>::InvoiceNft,
        key matches DataKey::Verifier(x) ==> key@ == DataKey::<Seq<u8>>::Verifier(x),
        key matches DataKey::SmeProfile(x) ==> key@ == DataKey::<Seq<u8>>::SmeProfile(x),
        key matches DataKey::DebtorScore(x) ==> key@ == DataKey::<Seq<u8>>::DebtorScore(x@),
{
}

/// A change to the storage is told as it was made.
pub proof fn change_is_told(op: StoreOp<Vec<u8>>)
    ensures
        op matches StoreOp::SetAdmin(x) ==> op@ == Op::SetAdmin(x),
        op matches StoreOp::SetInvoiceNft(x) ==> op@ == Op::SetInvoiceNft(x),
        op matches StoreOp::SetGuard(x) ==> op@ == Op::SetGuard(x),
        op matches StoreOp::SetVerifier(x, y) ==> op@ == Op::SetVerifier(x, y),
        op matches StoreOp::RemoveVerifier(x) ==> op@ == Op::RemoveVerifier(x),
        op matches StoreOp::SetSmeProfile(x, y) ==> op@ == Op::SetSmeProfile(x, y),
        op matches StoreOp::SetDebtorScore(x, y) ==> op@ == Op::SetDebtorScore(x@, y),
        op matches StoreOp::ExtendTtl { key, threshold, extend_to } ==> op@ == (Op::ExtendTtl {
            key: key@,
            threshold,
            extend_to,
        }),
{
}

/// Nothing is configured or known at first.
pub proof fn nothing_at_first(address: Address, hash: Seq<u8>)
    ensures
        ({
            let s = deployed();
            &&& s.admin is None && s.invoice_nft is None && !s.guard
            &&& !s.verifiers.contains_key(address) && !s.profiles.contains_key(address)
            &&& !s.debtor_scores.contains_key(hash)
        }),
{
}

/// The configuration lives with the contract instance, all else in entries of
/// its own.
pub proof fn where_entries_live<B>(key: DataKey<B>)
    ensures
        key.spec_durability() == Durability::Instance <==> key is Admin || key is InvoiceNft,
{
}

/// Whether a log asks for one authorization and nothing else.
pub open spec fn asks_only(log: Seq<EffectView<Op>>, who: Address) -> bool {
    log.len() == 1 && log[0] == Step::<Op, EventView>::RequireAuth(who)
}

/// Whether a step extends the lifetime of an entry to about thirty days.
pub open spec fn extends(step: EffectView<Op>, key: DataKey<Seq<u8>>) -> bool {
    step == Step::<Op, EventView>::Store(
        StoreOp::ExtendTtl { key, threshold: 518_400, extend_to: 518_400 },
    )
}

/// Whether all but the profile of one SME is the same in two states.
pub open spec fn same_but_profile(s: State, t: State, sme: Address) -> bool {
    &&& t.admin == s.admin && t.invoice_nft == s.invoice_nft && t.guard == s.guard
    &&& t.verifiers == s.verifiers && t.debtor_scores == s.debtor_scores
    &&& forall|other: Address|
        other != sme ==> t.profiles.contains_key(other) == #[trigger] s.profiles.contains_key(other)
            && t.profiles[other] == s.profiles[other]
}

/// Initializing succeeds exactly where nobody was the admin yet; it sets the
/// admin and the invoice contract and nothing else.
pub proof fn initializing(s: State, admin: Address, invoice_nft: Address)
    ensures
        ({
            let end = initialize(s, admin, invoice_nft);
            &&& end.result is Ok <==> s.admin is None
            &&& s.admin is Some ==> end.result == Err::<(), KoraError>(
                KoraError::AlreadyInitialized,
            ) && end.state == s && end.log.len() == 0
            &&& end.result is Ok ==> {
                &&& end.state.admin == Some(admin) && end.state.invoice_nft == Some(invoice_nft)
                &&& end.state.guard == s.guard && end.state.verifiers == s.verifiers
                &&& end.state.profiles == s.profiles
                &&& end.state.debtor_scores == s.debtor_scores
                &&& end.log.len() == 2
                &&& end.log[0] == Step::<Op, EventView>::Store(StoreOp::SetAdmin(admin))
                &&& end.log[1] == Step::<Op, EventView>::Store(StoreOp::SetInvoiceNft(invoice_nft))
            }
        }),
{
}

/// The registry is handed over exactly when the admin asks and names another
/// address. Nothing but the admin changes.
pub proof fn handing_over(s: State, current_admin: Address, new_admin: Address)
    ensures
        ({
            let end = transfer_admin(s, current_admin, new_admin);
            &&& end.result is Ok <==> s.admin == Some(current_admin) && current_admin != new_admin
            &&& s.admin is None ==> end.result == Err::<(), KoraError>(KoraError::NotInitialized)
            &&& s.admin is Some && s.admin != Some(current_admin) ==> end.result == Err::<
                (),
                KoraError,
            >(KoraError::NotAdmin)
            &&& s.admin == Some(current_admin) && current_admin == new_admin ==> end.result
                == Err::<(), KoraError>(KoraError::InvalidAddress)
            &&& end.result is Err ==> end.state == s && asks_only(end.log, current_admin)
            &&& end.result is Ok ==> {
                &&& end.state.admin == Some(new_admin)
                &&& end.state.invoice_nft == s.invoice_nft && end.state.guard == s.guard
                &&& end.state.verifiers == s.verifiers && end.state.profiles == s.profiles
                &&& end.state.debtor_scores == s.debtor_scores
                &&& end.log.len() == 3
                &&& end.log[0] == Step::<Op, EventView>::RequireAuth(current_admin)
                &&& end.log[1] == Step::<Op, EventView>::Store(StoreOp::SetAdmin(new_admin))
                &&& end.log[2] == Step::<Op, EventView>::Publish(
                    EventView {
                        topic: Topic::AdmTrf,
                        shape: Shape::Bare,
                        data: seq![Value::Address(new_admin)],
                    },
                )
            }
        }),
{
}

/// A verifier is added exactly when the admin asks and nothing is under way,
/// whether or not it was one before. Nobody else's standing changes.
pub proof fn adding_a_verifier(
    s: State,
    cx: Context,
    admin: Address,
    verifier: Address,
    other: Address,
)
    ensures
        ({
            let end = add_verifier(s, cx, admin, verifier);
            &&& end.result is Ok <==> s.admin == Some(admin) && !s.guard
            &&& s.admin is None ==> end.result == Err::<(), KoraError>(KoraError::NotInitialized)
            &&& s.admin is Some && s.admin != Some(admin) ==> end.result == Err::<(), KoraError>(
                KoraError::NotAdmin,
            )
            &&& s.admin == Some(admin) && s.guard ==> end.result == Err::<(), KoraError>(
                KoraError::Reentrancy,
            )
            &&& end.result is Err ==> end.state == s && asks_only(end.log, admin)
            &&& end.result is Ok ==> {
                &&& end.state.verifiers.contains_key(verifier) && end.state.verifiers[verifier]
                &&& other != verifier ==> end.state.verifiers.contains_key(other)
                    == s.verifiers.contains_key(other) && end.state.verifiers[other]
                    == s.verifiers[other]
                &&& end.state.admin == s.admin && end.state.invoice_nft == s.invoice_nft
                &&& end.state.guard == s.guard && end.state.profiles == s.profiles
                &&& end.state.debtor_scores == s.debtor_scores
                &&& end.log.len() == 6
                &&& end.log[0] == Step::<Op, EventView>::RequireAuth(admin)
                &&& end.log[1] == Step::<Op, EventView>::Store(StoreOp::SetGuard(true))
                &&& end.log[2] == Step::<Op, EventView>::Store(
                    StoreOp::SetVerifier(verifier, true),
                )
                &&& extends(end.log[3], DataKey::Verifier(verifier))
                &&& end.log[4] == Step::<Op, EventView>::Publish(
                    EventView {
                        topic: Topic::VrfAdd,
                        shape: Shape::Tuple,
                        data: seq![
                            Value::Address(admin),
                            Value::Address(verifier),
                            Value::U64(cx.timestamp),
                        ],
                    },
                )
                &&& end.log[5] == Step::<Op, EventView>::Store(StoreOp::SetGuard(false))
            }
        }),
{
}

/// A verifier is removed exactly when the admin asks and it is one. Its entry
/// is gone and nobody else's standing changes.
pub proof fn removing_a_verifier(
    s: State,
    cx: Context,
    admin: Address,
    verifier: Address,
    other: Address,
)
    ensures
        ({
            let end = remove_verifier(s, cx, admin, verifier);
            let trusted = s.verifiers.contains_key(verifier) && s.verifiers[verifier];
            &&& end.result is Ok <==> s.admin == Some(admin) && trusted
            &&& s.admin is None ==> end.result == Err::<(), KoraError>(KoraError::NotInitialized)
            &&& s.admin is Some && s.admin != Some(admin) ==> end.result == Err::<(), KoraError>(
                KoraError::NotAdmin,
            )
            &&& s.admin == Some(admin) && !trusted ==> end.result == Err::<(), KoraError>(
                KoraError::NotVerifier,
            )
            &&& end.result is Err ==> end.state == s && asks_only(end.log, admin)
            &&& end.result is Ok ==> {
                &&& !end.state.verifiers.contains_key(verifier)
                &&& other != verifier ==> end.state.verifiers.contains_key(other)
                    == s.verifiers.contains_key(other) && (s.verifiers.contains_key(other)
                    ==> end.state.verifiers[other] == s.verifiers[other])
                &&& end.state.admin == s.admin && end.state.invoice_nft == s.invoice_nft
                &&& end.state.guard == s.guard && end.state.profiles == s.profiles
                &&& end.state.debtor_scores == s.debtor_scores
                &&& end.log.len() == 3
                &&& end.log[0] == Step::<Op, EventView>::RequireAuth(admin)
                &&& end.log[1] == Step::<Op, EventView>::Store(StoreOp::RemoveVerifier(verifier))
                &&& end.log[2] == Step::<Op, EventView>::Publish(
                    EventView {
                        topic: Topic::VrfRem,
                        shape: Shape::Tuple,
                        data: seq![
                            Value::Address(admin),
                            Value::Address(verifier),
                            Value::U64(cx.timestamp),
                        ],
                    },
                )
            }
        }),
{
}

/// An SME is registered exactly when a verifier asks, the score is at most 100
/// and the SME is not registered yet. It then has a verified profile with that
/// score, that verifier, no invoices, no defaults and the current time.
pub proof fn registering_an_sme(
    s: State,
    cx: Context,
    verifier: Address,
    sme: Address,
    risk_score: u32,
)
    ensures
        ({
            let end = register_sme(s, cx, verifier, sme, risk_score);
            let trusted = s.verifiers.contains_key(verifier) && s.verifiers[verifier];
            let known = s.profiles.contains_key(sme);
            &&& end.result is Ok <==> trusted && risk_score <= 100 && !known
            &&& !trusted ==> end.result == Err::<(), KoraError>(KoraError::NotVerifier)
            &&& trusted && risk_score > 100 ==> end.result == Err::<(), KoraError>(
                KoraError::InvalidRiskScore,
            )
            &&& trusted && risk_score <= 100 && known ==> end.result == Err::<(), KoraError>(
                KoraError::AlreadyInitialized,
            )
            &&& end.result is Err ==> end.state == s && asks_only(end.log, verifier)
            &&& end.result is Ok ==> {
                let made = end.state.profiles[sme];
                &&& end.state.profiles.contains_key(sme)
                &&& made.address == sme && made.verified && made.verifier == verifier
                &&& made.risk_score == risk_score && made.total_invoices == 0
                &&& made.defaults == 0 && made.registered_at == cx.timestamp
                &&& same_but_profile(s, end.state, sme)
                &&& end.log.len() == 4
                &&& end.log[0] == Step::<Op, EventView>::RequireAuth(verifier)
                &&& end.log[1] == Step::<Op, EventView>::Store(StoreOp::SetSmeProfile(sme, made))
                &&& extends(end.log[2], DataKey::SmeProfile(sme))
                &&& end.log[3] == Step::<Op, EventView>::Publish(
                    EventView {
                        topic: Topic::SmeReg,
                        shape: Shape::Tuple,
                        data: seq![
                            Value::Address(verifier),
                            Value::Address(sme),
                            Value::U32(risk_score),
                            Value::U64(cx.timestamp),
                        ],
                    },
                )
            }
        }),
{
}

/// A score is updated exactly when a verifier asks, whichever verifier
/// registered the SME, the score is at most 100, nothing is under way and the
/// SME is registered. The profile then has that score and is otherwise as
/// before.
pub proof fn updating_a_score(
    s: State,
    cx: Context,
    verifier: Address,
    sme: Address,
    new_score: u32,
)
    ensures
        ({
            let end = update_sme_score(s, cx, verifier, sme, new_score);
            let trusted = s.verifiers.contains_key(verifier) && s.verifiers[verifier];
            let known = s.profiles.contains_key(sme);
            &&& end.result is Ok <==> trusted && new_score <= 100 && !s.guard && known
            &&& !trusted ==> end.result == Err::<(), KoraError>(KoraError::NotVerifier)
            &&& trusted && new_score > 100 ==> end.result == Err::<(), KoraError>(
                KoraError::InvalidRiskScore,
            )
            &&& trusted && new_score <= 100 && s.guard ==> end.result == Err::<(), KoraError>(
                KoraError::Reentrancy,
            )
            &&& trusted && new_score <= 100 && !s.guard && !known ==> end.result == Err::<
                (),
                KoraError,
            >(KoraError::SMENotRegistered)
            &&& end.result is Err ==> end.state == s && asks_only(end.log, verifier)
            &&& end.result is Ok ==> {
                let old = s.profiles[sme];
                let new = end.state.profiles[sme];
                &&& end.state.profiles.contains_key(sme)
                &&& new.risk_score == new_score
                &&& new.address == old.address && new.verified == old.verified
                &&& new.verifier == old.verifier && new.total_invoices == old.total_invoices
                &&& new.defaults == old.defaults && new.registered_at == old.registered_at
                &&& same_but_profile(s, end.state, sme)
                &&& end.log.len() == 6
                &&& end.log[0] == Step::<Op, EventView>::RequireAuth(verifier)
                &&& end.log[1] == Step::<Op, EventView>::Store(StoreOp::SetGuard(true))
                &&& end.log[2] == Step::<Op, EventView>::Store(StoreOp::SetSmeProfile(sme, new))
                &&& extends(end.log[3], DataKey::SmeProfile(sme))
                &&& end.log[4] == Step::<Op, EventView>::Publish(
                    EventView {
                        topic: Topic::SmeUpd,
                        shape: Shape::Tuple,
                        data: seq![
                            Value::Address(verifier),
                            Value::Address(sme),
                            Value::U32(new_score),
                            Value::U64(cx.timestamp),
                        ],
                    },
                )
                &&& end.log[5] == Step::<Op, EventView>::Store(StoreOp::SetGuard(false))
            }
        }),
{
}

/// In a registry where nothing is under way, any verifier can give any
/// registered SME any score up to 100, and a later score by any other verifier
/// replaces it.
pub proof fn every_verifier_can_update(
    s: State,
    cx: Context,
    later: Context,
    first: Address,
    second: Address,
    sme: Address,
    first_score: u32,
    second_score: u32,
)
    requires
        !s.guard,
        is_verifier(s, first),
        is_verifier(s, second),
        s.profiles.contains_key(sme),
        first_score <= 100,
        second_score <= 100,
    ensures
        ({
            let one = update_sme_score(s, cx, first, sme, first_score);
            let two = update_sme_score(one.state, later, second, sme, second_score);
            &&& one.result is Ok && one.state.profiles[sme].risk_score == first_score
            &&& two.result is Ok && two.state.profiles[sme].risk_score == second_score
        }),
{
}

/// An invoice is counted exactly when the invoice contract asks, the SME is
/// registered and the count is not at its limit. The count grows by one and the
/// profile is otherwise as before.
pub proof fn counting_an_invoice(s: State, cx: Context, caller: Address, sme: Address)
    ensures
        ({
            let end = increment_invoice_count(s, cx, caller, sme);
            let known = s.profiles.contains_key(sme);
            let old = s.profiles[sme];
            &&& end.result is Ok <==> s.invoice_nft == Some(caller) && known && old.total_invoices
                < u32::MAX
            &&& s.invoice_nft is None ==> end.result == Err::<(), KoraError>(
                KoraError::NotInitialized,
            )
            &&& s.invoice_nft is Some && s.invoice_nft != Some(caller) ==> end.result == Err::<
                (),
                KoraError,
            >(KoraError::Unauthorized)
            &&& s.invoice_nft == Some(caller) && !known ==> end.result == Err::<(), KoraError>(
                KoraError::SMENotRegistered,
            )
            &&& s.invoice_nft == Some(caller) && known && old.total_invoices == u32::MAX
                ==> end.result == Err::<(), KoraError>(KoraError::ArithmeticOverflow)
            &&& end.result is Err ==> end.state == s && asks_only(end.log, caller)
            &&& end.result is Ok ==> {
                let new = end.state.profiles[sme];
                &&& end.state.profiles.contains_key(sme)
                &&& new.total_invoices == old.total_invoices + 1
                &&& new.address == old.address && new.verified == old.verified
                &&& new.verifier == old.verifier && new.risk_score == old.risk_score
                &&& new.defaults == old.defaults && new.registered_at == old.registered_at
                &&& same_but_profile(s, end.state, sme)
                &&& end.log.len() == 4
                &&& end.log[0] == Step::<Op, EventView>::RequireAuth(caller)
                &&& end.log[1] == Step::<Op, EventView>::Store(StoreOp::SetSmeProfile(sme, new))
                &&& extends(end.log[2], DataKey::SmeProfile(sme))
                &&& end.log[3] == Step::<Op, EventView>::Publish(
                    EventView {
                        topic: Topic::SmeInv,
                        shape: Shape::Tuple,
                        data: seq![
                            Value::Address(sme),
                            Value::U32(new.total_invoices),
                            Value::U64(cx.timestamp),
                        ],
                    },
                )
            }
        }),
{
}

/// A default is recorded exactly when the admin asks, nothing is under way, the
/// SME is registered and the count is not at its limit. The count grows by one
/// and the profile is otherwise as before.
pub proof fn recording_a_default(s: State, cx: Context, admin: Address, sme: Address)
    ensures
        ({
            let end = record_default(s, cx, admin, sme);
            let known = s.profiles.contains_key(sme);
            let old = s.profiles[sme];
            let asked = s.admin == Some(admin);
            &&& end.result is Ok <==> asked && !s.guard && known && old.defaults < u32::MAX
            &&& s.admin is None ==> end.result == Err::<(), KoraError>(KoraError::NotInitialized)
            &&& s.admin is Some && !asked ==> end.result == Err::<(), KoraError>(
                KoraError::NotAdmin,
            )
            &&& asked && s.guard ==> end.result == Err::<(), KoraError>(KoraError::Reentrancy)
            &&& asked && !s.guard && !known ==> end.result == Err::<(), KoraError>(
                KoraError::SMENotRegistered,
            )
            &&& asked && !s.guard && known && old.defaults == u32::MAX ==> end.result == Err::<
                (),
                KoraError,
            >(KoraError::ArithmeticOverflow)
            &&& end.result is Err ==> end.state == s && asks_only(end.log, admin)
            &&& end.result is Ok ==> {
                let new = end.state.profiles[sme];
                &&& end.state.profiles.contains_key(sme)
                &&& new.defaults == old.defaults + 1
                &&& new.address == old.address && new.verified == old.verified
                &&& new.verifier == old.verifier && new.risk_score == old.risk_score
                &&& new.total_invoices == old.total_invoices
                &&& new.registered_at == old.registered_at
                &&& same_but_profile(s, end.state, sme)
                &&& end.log.len() == 6
                &&& end.log[0] == Step::<Op, EventView>::RequireAuth(admin)
                &&& end.log[1] == Step::<Op, EventView>::Store(StoreOp::SetGuard(true))
                &&& end.log[2] == Step::<Op, EventView>::Store(StoreOp::SetSmeProfile(sme, new))
                &&& extends(end.log[3], DataKey::SmeProfile(sme))
                &&& end.log[4] == Step::<Op, EventView>::Publish(
                    EventView {
                        topic: Topic::SmeDft,
                        shape: Shape::Tuple,
                        data: seq![
                            Value::Address(admin),
                            Value::Address(sme),
                            Value::U32(new.defaults),
                            Value::U64(cx.timestamp),
                        ],
                    },
                )
                &&& end.log[5] == Step::<Op, EventView>::Store(StoreOp::SetGuard(false))
            }
        }),
{
}

/// A debtor is scored exactly when a verifier asks, the hash is not empty and
/// the score is at most 100, whether or not the debtor had a score. Nothing but
/// that debtor's score changes.
pub proof fn scoring_a_debtor(
    s: State,
    cx: Context,
    verifier: Address,
    hash: Seq<u8>,
    score: u32,
    other: Seq<u8>,
)
    ensures
        ({
            let end = set_debtor_score(s, cx, verifier, hash, score);
            let trusted = s.verifiers.contains_key(verifier) && s.verifiers[verifier];
            &&& end.result is Ok <==> trusted && hash.len() > 0 && score <= 100
            &&& !trusted ==> end.result == Err::<(), KoraError>(KoraError::NotVerifier)
            &&& trusted && hash.len() == 0 ==> end.result == Err::<(), KoraError>(
                KoraError::EmptyBytes,
            )
            &&& trusted && hash.len() > 0 && score > 100 ==> end.result == Err::<(), KoraError>(
                KoraError::InvalidRiskScore,
            )
            &&& end.result is Err ==> end.state == s && asks_only(end.log, verifier)
            &&& end.result is Ok ==> {
                &&& end.state.debtor_scores.contains_key(hash)
                &&& end.state.debtor_scores[hash] == score
                &&& other != hash ==> end.state.debtor_scores.contains_key(other)
                    == s.debtor_scores.contains_key(other) && end.state.debtor_scores[other]
                    == s.debtor_scores[other]
                &&& end.state.admin == s.admin && end.state.invoice_nft == s.invoice_nft
                &&& end.state.guard == s.guard && end.state.verifiers == s.verifiers
                &&& end.state.profiles == s.profiles
                &&& end.log.len() == 4
                &&& end.log[0] == Step::<Op, EventView>::RequireAuth(verifier)
                &&& end.log[1] == Step::<Op, EventView>::Store(
                    StoreOp::SetDebtorScore(hash, score),
                )
                &&& extends(end.log[2], DataKey::DebtorScore(hash))
                &&& end.log[3] == Step::<Op, EventView>::Publish(
                    EventView {
                        topic: Topic::DbtScr,
                        shape: Shape::Tuple,
                        data: seq![
                            Value::Address(verifier),
                            Value::Bytes(hash),
                            Value::U32(score),
                            Value::U64(cx.timestamp),
                        ],
                    },
                )
            }
        }),
{
}

/// What is stored is what is read; what is not stored is missing.
pub proof fn reading(s: State, address: Address, hash: Seq<u8>)
    ensures
        is_verifier(s, address) <==> s.verifiers.contains_key(address) && s.verifiers[address],
        s.profiles.contains_key(address) ==> get_sme_profile(s, address) == Ok::<
            SmeProfile,
            KoraError,
        >(s.profiles[address]),
        !s.profiles.contains_key(address) ==> get_sme_profile(s, address) == Err::<
            SmeProfile,
            KoraError,
        >(KoraError::SMENotRegistered),
        s.debtor_scores.contains_key(hash) ==> get_debtor_score(s, hash) == Ok::<u32, KoraError>(
            s.debtor_scores[hash],
        ),
        !s.debtor_scores.contains_key(hash) ==> get_debtor_score(s, hash) == Err::<u32, KoraError>(
            KoraError::DebtorNotRegistered,
        ),
        s.admin matches Some(admin) ==> get_admin(s) == Ok::<Address, KoraError>(admin),
        s.admin is None ==> get_admin(s) == Err::<Address, KoraError>(KoraError::NotInitialized),
{
}

} // verus!
