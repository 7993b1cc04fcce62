//! What the shared parts promise: events and errors, the host's bookkeeping,
//! arithmetic, the order of addresses and how they are written.

use vstd::arithmetic::div_mod::{lemma_div_denominator, lemma_fundamental_div_mod};
use vstd::arithmetic::power::{lemma_pow0, lemma_pow_positive, pow};
use vstd::prelude::*;

use crate::shared::errors::KoraError;
use crate::shared::events::{
    admin_transferred_event, debtor_score_set_event, emergency_withdrawn_event,
    fee_collected_event, fee_rate_updated_event, fee_withdrawn_event, invoice_created_event,
    invoice_defaulted_event, invoice_funded_event, invoice_listed_event, invoice_repaid_event,
    listing_cancelled_event, listing_expired_event, pool_opened_event,
    position_recorded_event, protocol_paused_event, protocol_unpaused_event,
    repayment_made_event, role_granted_event, role_revoked_event, sme_default_recorded_event,
    sme_invoice_count_incremented_event, sme_registered_event, sme_score_updated_event,
    token_whitelisted_event, treasury_initialized_event, verifier_added_event,
    verifier_removed_event, yield_distributed_event, Event, EventView, Shape, Topic, Value,
};
use crate::shared::host::{refused, Context, Invocation, Outcome, Step};
use crate::shared::table::{entries_map, lemma_absent, lemma_present, Key, Stored};
use crate::shared::types::{Address, Listing, Pool, SmeProfile};
use crate::shared::validation::{check, fits, quotient, share_of};
use crate::shared::xdr::{digits, encoding};

verus! {

/// The numbers under which errors cross a contract boundary, in blocks by what
/// they are about.
pub proof fn error_codes()
    ensures
        KoraError::Unauthorized.spec_code() == 1,
        KoraError::NotAdmin.spec_code() == 2,
        KoraError::NotVerifier.spec_code() == 3,
        KoraError::ProtocolPaused.spec_code() == 4,
        KoraError::AlreadyPaused.spec_code() == 5,
        KoraError::NotPaused.spec_code() == 6,
        KoraError::RoleNotAssigned.spec_code() == 7,
        KoraError::InvoiceNotFound.spec_code() == 10,
        KoraError::InvoiceAlreadyExists.spec_code() == 11,
        KoraError::InvalidInvoiceStatus.spec_code() == 12,
        KoraError::InvoiceExpired.spec_code() == 13,
        KoraError::InvalidAmount.spec_code() == 14,
        KoraError::InvalidDueDate.spec_code() == 15,
        KoraError::InvalidRiskScore.spec_code() == 16,
        KoraError::ListingNotFound.spec_code() == 20,
        KoraError::ListingAlreadyCancelled.spec_code() == 21,
        KoraError::ListingExpired.spec_code() == 22,
        KoraError::FundingDeadlinePassed.spec_code() == 23,
        KoraError::InsufficientFunds.spec_code() == 24,
        KoraError::ExceedsFundingTarget.spec_code() == 25,
        KoraError::AlreadyFullyFunded.spec_code() == 26,
        KoraError::PoolNotFound.spec_code() == 30,
        KoraError::PoolAlreadyClosed.spec_code() == 31,
        KoraError::RepaymentAlreadyMade.spec_code() == 32,
        KoraError::InsufficientPoolBalance.spec_code() == 33,
        KoraError::InvalidFeeRate.spec_code() == 40,
        KoraError::WithdrawalFailed.spec_code() == 41,
        KoraError::TokenNotWhitelisted.spec_code() == 42,
        KoraError::SMENotRegistered.spec_code() == 50,
        KoraError::DebtorNotRegistered.spec_code() == 51,
        KoraError::RiskScoreOutOfRange.spec_code() == 52,
        KoraError::ArithmeticOverflow.spec_code() == 90,
        KoraError::InvalidAddress.spec_code() == 91,
        KoraError::EmptyString.spec_code() == 92,
        KoraError::AlreadyInitialized.spec_code() == 93,
        KoraError::NotInitialized.spec_code() == 94,
        KoraError::EmptyBytes.spec_code() == 95,
        KoraError::ArithmeticUnderflow.spec_code() == 96,
        KoraError::Reentrancy.spec_code() == 97,
{
}

/// The symbols under which events are published.
pub proof fn event_symbols()
    ensures
        Topic::InvCrt.spec_symbol() == "INV_CRT"@,
        Topic::InvLst.spec_symbol() == "INV_LST"@,
        Topic::InvFnd.spec_symbol() == "INV_FND"@,
        Topic::InvRpd.spec_symbol() == "INV_RPD"@,
        Topic::InvDft.spec_symbol() == "INV_DFT"@,
        Topic::Repay.spec_symbol() == "REPAY"@,
        Topic::Yield.spec_symbol() == "YIELD"@,
        Topic::PoolOpen.spec_symbol() == "pool_open"@,
        Topic::PosRec.spec_symbol() == "pos_rec"@,
        Topic::LstCxl.spec_symbol() == "LST_CXL"@,
        Topic::LstExp.spec_symbol() == "LST_EXP"@,
        Topic::FeeCol.spec_symbol() == "FEE_COL"@,
        Topic::FeeWth.spec_symbol() == "FEE_WTH"@,
        Topic::EmrgWth.spec_symbol() == "EMRG_WTH"@,
        Topic::FeeUpd.spec_symbol() == "FEE_UPD"@,
        Topic::TresIni.spec_symbol() == "TRES_INI"@,
        Topic::Paused.spec_symbol() == "PAUSED"@,
        Topic::Unpaused.spec_symbol() == "UNPAUSED"@,
        Topic::TokWl.spec_symbol() == "TOK_WL"@,
        Topic::AdmTrf.spec_symbol() == "ADM_TRF"@,
        Topic::RolGrt.spec_symbol() == "ROL_GRT"@,
        Topic::RolRvk.spec_symbol() == "ROL_RVK"@,
        Topic::VrfAdd.spec_symbol() == "VRF_ADD"@,
        Topic::VrfRem.spec_symbol() == "VRF_REM"@,
        Topic::SmeReg.spec_symbol() == "SME_REG"@,
        Topic::SmeUpd.spec_symbol() == "SME_UPD"@,
        Topic::SmeDft.spec_symbol() == "SME_DFT"@,
        Topic::SmeInv.spec_symbol() == "SME_INV"@,
        Topic::DbtScr.spec_symbol() == "DBT_SCR"@,
{
}

/// Who, what and when of an invoice: created, listed, funded, repaid, defaulted.
pub proof fn invoice_events_carry(
    cx: Context,
    invoice_id: u64,
    sme: Address,
    amount: i128,
    seller: Address,
    asking_price: i128,
    investor: Address,
)
    ensures
        invoice_created_event(cx, invoice_id, sme, amount) == (EventView {
            topic: Topic::InvCrt,
            shape: Shape::Tuple,
            data: seq![
                Value::U64(invoice_id),
                Value::Address(sme),
                Value::I128(amount),
                Value::U64(cx.timestamp),
            ],
        }),
        invoice_listed_event(cx, invoice_id, seller, asking_price) == (EventView {
            topic: Topic::InvLst,
            shape: Shape::Tuple,
            data: seq![
                Value::Address(seller),
                Value::U64(invoice_id),
                Value::I128(asking_price),
                Value::U64(cx.timestamp),
            ],
        }),
        invoice_funded_event(cx, invoice_id, investor, amount) == (EventView {
            topic: Topic::InvFnd,
            shape: Shape::Tuple,
            data: seq![
                Value::Address(investor),
                Value::U64(invoice_id),
                Value::I128(amount),
                Value::U64(cx.timestamp),
            ],
        }),
        invoice_repaid_event(invoice_id, sme, amount) == (EventView {
            topic: Topic::InvRpd,
            shape: Shape::Tuple,
            data: seq![Value::U64(invoice_id), Value::Address(sme), Value::I128(amount)],
        }),
        invoice_defaulted_event(cx, invoice_id, sme) == (EventView {
            topic: Topic::InvDft,
            shape: Shape::Tuple,
            data: seq![Value::U64(invoice_id), Value::Address(sme), Value::U64(cx.timestamp)],
        }),
{
}

/// What the pool tells: a payment and its payer, the gain of an investor, an opened
/// pool, a recorded position.
pub proof fn pool_events_carry(
    invoice_id: u64,
    payer: Address,
    amount: i128,
    investor: Address,
    yield_amount: i128,
    cx: Context,
    actor: Address,
)
    ensures
        repayment_made_event(invoice_id, payer, amount) == (EventView {
            topic: Topic::Repay,
            shape: Shape::Tuple,
            data: seq![Value::U64(invoice_id), Value::Address(payer), Value::I128(amount)],
        }),
        yield_distributed_event(invoice_id, investor, yield_amount) == (EventView {
            topic: Topic::Yield,
            shape: Shape::Tuple,
            data: seq![Value::U64(invoice_id), Value::Address(investor), Value::I128(yield_amount)],
        }),
        pool_opened_event(cx, invoice_id, actor) == (EventView {
            topic: Topic::PoolOpen,
            shape: Shape::Tuple,
            data: seq![Value::U64(invoice_id), Value::Address(actor), Value::U32(cx.sequence)],
        }),
        position_recorded_event(cx, invoice_id, actor, investor, amount) == (EventView {
            topic: Topic::PosRec,
            shape: Shape::Tuple,
            data: seq![
                Value::U64(invoice_id),
                Value::Address(actor),
                Value::Address(investor),
                Value::I128(amount),
                Value::U32(cx.sequence),
            ],
        }),
{
}

/// What the marketplace tells: a listing cancelled or expired, a fee collected, a
/// token whitelisted.
pub proof fn listing_events_carry(
    cx: Context,
    invoice_id: u64,
    seller: Address,
    investor: Address,
    fee_amount: i128,
    token: Address,
)
    ensures
        listing_cancelled_event(cx, invoice_id, seller) == (EventView {
            topic: Topic::LstCxl,
            shape: Shape::Tuple,
            data: seq![Value::U64(invoice_id), Value::Address(seller), Value::U64(cx.timestamp)],
        }),
        listing_expired_event(cx, invoice_id, seller) == (EventView {
            topic: Topic::LstExp,
            shape: Shape::Tuple,
            data: seq![
                Value::Address(seller),
                Value::U64(invoice_id),
                Value::I128(0),
                Value::U64(cx.timestamp),
            ],
        }),
        fee_collected_event(cx, invoice_id, investor, fee_amount, token) == (EventView {
            topic: Topic::FeeCol,
            shape: Shape::Tuple,
            data: seq![
                Value::Address(investor),
                Value::U64(invoice_id),
                Value::I128(fee_amount),
                Value::Address(token),
                Value::U64(cx.timestamp),
            ],
        }),
        token_whitelisted_event(token) == (EventView {
            topic: Topic::TokWl,
            shape: Shape::Bare,
            data: seq![Value::Address(token)],
        }),
{
}

/// What the treasury tells: its first fee, a new fee after an old one, what was
/// withdrawn.
pub proof fn treasury_events_carry(
    admin: Address,
    fee_bps: u32,
    by: Address,
    old_bps: u32,
    new_bps: u32,
    token: Address,
    amount: i128,
)
    ensures
        treasury_initialized_event(admin, fee_bps) == (EventView {
            topic: Topic::TresIni,
            shape: Shape::Tuple,
            data: seq![Value::Address(admin), Value::U32(fee_bps)],
        }),
        fee_rate_updated_event(by, old_bps, new_bps) == (EventView {
            topic: Topic::FeeUpd,
            shape: Shape::Tuple,
            data: seq![Value::Address(by), Value::U32(old_bps), Value::U32(new_bps)],
        }),
        fee_withdrawn_event(token, amount) == (EventView {
            topic: Topic::FeeWth,
            shape: Shape::Tuple,
            data: seq![Value::Address(token), Value::I128(amount)],
        }),
        emergency_withdrawn_event(by, token, amount) == (EventView {
            topic: Topic::EmrgWth,
            shape: Shape::Tuple,
            data: seq![Value::Address(by), Value::Address(token), Value::I128(amount)],
        }),
{
}

/// What access control tells: the pause and its end, roles given and taken, a new
/// admin.
pub proof fn access_events_carry(
    cx: Context,
    by: Address,
    admin: Address,
    target: Address,
    new_admin: Address,
)
    ensures
        protocol_paused_event(cx, by) == (EventView {
            topic: Topic::Paused,
            shape: Shape::Tuple,
            data: seq![Value::Address(by), Value::U64(cx.timestamp)],
        }),
        protocol_unpaused_event(cx, by) == (EventView {
            topic: Topic::Unpaused,
            shape: Shape::Tuple,
            data: seq![Value::Address(by), Value::U64(cx.timestamp)],
        }),
        role_granted_event(admin, target) == (EventView {
            topic: Topic::RolGrt,
            shape: Shape::Tuple,
            data: seq![Value::Address(admin), Value::Address(target)],
        }),
        role_revoked_event(admin, target) == (EventView {
            topic: Topic::RolRvk,
            shape: Shape::Tuple,
            data: seq![Value::Address(admin), Value::Address(target)],
        }),
        admin_transferred_event(new_admin) == (EventView {
            topic: Topic::AdmTrf,
            shape: Shape::Bare,
            data: seq![Value::Address(new_admin)],
        }),
{
}

/// What the registry tells: verifiers, and what is known of sellers and debtors.
pub proof fn registry_events_carry(
    cx: Context,
    admin: Address,
    verifier: Address,
    sme: Address,
    risk_score: u32,
    new_score: u32,
    total_defaults: u32,
    new_total: u32,
    debtor_hash: Seq<u8>,
    score: u32,
)
    ensures
        verifier_added_event(cx, admin, verifier) == (EventView {
            topic: Topic::VrfAdd,
            shape: Shape::Tuple,
            data: seq![Value::Address(admin), Value::Address(verifier), Value::U64(cx.timestamp)],
        }),
        verifier_removed_event(cx, admin, verifier) == (EventView {
            topic: Topic::VrfRem,
            shape: Shape::Tuple,
            data: seq![Value::Address(admin), Value::Address(verifier), Value::U64(cx.timestamp)],
        }),
        sme_registered_event(cx, verifier, sme, risk_score) == (EventView {
            topic: Topic::SmeReg,
            shape: Shape::Tuple,
            data: seq![
                Value::Address(verifier),
                Value::Address(sme),
                Value::U32(risk_score),
                Value::U64(cx.timestamp),
            ],
        }),
        sme_score_updated_event(cx, verifier, sme, new_score) == (EventView {
            topic: Topic::SmeUpd,
            shape: Shape::Tuple,
            data: seq![
                Value::Address(verifier),
                Value::Address(sme),
                Value::U32(new_score),
                Value::U64(cx.timestamp),
            ],
        }),
        sme_default_recorded_event(cx, admin, sme, total_defaults) == (EventView {
            topic: Topic::SmeDft,
            shape: Shape::Tuple,
            data: seq![
                Value::Address(admin),
                Value::Address(sme),
                Value::U32(total_defaults),
                Value::U64(cx.timestamp),
            ],
        }),
        sme_invoice_count_incremented_event(cx, sme, new_total) == (EventView {
            topic: Topic::SmeInv,
            shape: Shape::Tuple,
            data: seq![Value::Address(sme), Value::U32(new_total), Value::U64(cx.timestamp)],
        }),
        debtor_score_set_event(cx, verifier, debtor_hash, score) == (EventView {
            topic: Topic::DbtScr,
            shape: Shape::Tuple,
            data: seq![
                Value::Address(verifier),
                Value::Bytes(debtor_hash),
                Value::U32(score),
                Value::U64(cx.timestamp),
            ],
        }),
{
}

/// Events look the same to those who are told of them as to those who publish
/// them.
pub proof fn event_is_what_is_published(event: Event, i: int)
    requires
        0 <= i < event.data.len(),
    ensures
        event@.topic == event.topic,
        event@.shape == event.shape,
        event@.data.len() == event.data.len(),
        event.data@[i] matches Value::U32(n) ==> event@.data[i] == Value::<Seq<u8>>::U32(n),
        event.data@[i] matches Value::U64(n) ==> event@.data[i] == Value::<Seq<u8>>::U64(n),
        event.data@[i] matches Value::I128(n) ==> event@.data[i] == Value::<Seq<u8>>::I128(n),
        event.data@[i] matches Value::Address(a) ==> event@.data[i] == Value::<Seq<u8>>::Address(
            a,
        ),
        event.data@[i] matches Value::Bytes(b) ==> event@.data[i] == Value::<Seq<u8>>::Bytes(b@),
{
}

/// The log lists the steps that were asked for, in order.
pub proof fn log_is_what_was_asked_for<S: View>(env: Invocation<S>, i: int)
    requires
        0 <= i < env.effects.len(),
    ensures
        env.log().len() == env.effects.len(),
        env.effects@[i] matches Step::RequireAuth(who) ==> env.log()[i] == Step::<
            S::V,
            EventView,
        >::RequireAuth(who),
        env.effects@[i] matches Step::Store(op) ==> env.log()[i] == Step::<S::V, EventView>::Store(
            op@,
        ),
        env.effects@[i] matches Step::Publish(event) ==> env.log()[i] == Step::<
            S::V,
            EventView,
        >::Publish(event@),
        env.effects@[i] matches Step::Call(call) ==> env.log()[i] == Step::<S::V, EventView>::Call(
            call,
        ),
{
}

/// An invocation that ended in an outcome returned its result, left its state
/// behind, kept its context and asked for the outcome's steps after those asked
/// for before, and for no others.
pub proof fn outcome_is_all_that_happened<A, V, T, S: View<V = V>>(
    outcome: Outcome<A, V, T>,
    result: Result<T, KoraError>,
    state: A,
    before: Invocation<S>,
    after: Invocation<S>,
)
    requires
        outcome.reached(result, state, before, after),
    ensures
        result == outcome.result,
        state == outcome.state,
        after.context == before.context,
        after.log().len() == before.log().len() + outcome.log.len(),
        forall|i: int| 0 <= i < before.log().len() ==> after.log()[i] == #[trigger] before.log()[i],
        forall|i: int|
            0 <= i < outcome.log.len() ==> after.log()[before.log().len() + i]
                == #[trigger] outcome.log[i],
{
    assert forall|i: int| 0 <= i < before.log().len() implies after.log()[i]
        == #[trigger] before.log()[i] by {
        assert((before.log() + outcome.log)[i] == before.log()[i]);
    }
    assert forall|i: int| 0 <= i < outcome.log.len() implies after.log()[before.log().len() + i]
        == #[trigger] outcome.log[i] by {
        assert((before.log() + outcome.log)[before.log().len() + i] == outcome.log[i]);
    }
}

/// A refusal gives the error, changes nothing and asks for nothing but the
/// caller's authorization.
pub proof fn refusal_does_nothing<A, V, T>(state: A, caller: Address, error: KoraError)
    ensures
        ({
            let end = refused::<A, V, T>(state, caller, error);
            &&& end.result == Err::<T, KoraError>(error)
            &&& end.state == state
            &&& end.log.len() == 1
            &&& end.log[0] == Step::<V, EventView>::RequireAuth(caller)
        }),
{
}

/// A check passes exactly where the condition holds.
pub proof fn check_tells_the_error(ok: bool, error: KoraError)
    ensures
        ok ==> check(ok, error) == Ok::<(), KoraError>(()),
        !ok ==> check(ok, error) == Err::<(), KoraError>(error),
{
}

/// What fits is what an `i128` can be.
pub proof fn what_fits(n: int)
    ensures
        fits(n) <==> (n as i128) as int == n,
{
}

/// A quotient leaves a rest that is smaller than the divisor and, unless it is
/// zero, has the sign of the dividend.
pub proof fn quotient_leaves_a_rest(a: int, b: int)
    requires
        b != 0,
    ensures
        ({
            let rest = a - quotient(a, b) * b;
            &&& a >= 0 ==> 0 <= rest
            &&& a <= 0 ==> rest <= 0
            &&& b > 0 ==> -b < rest < b
            &&& b < 0 ==> b < rest < -b
        }),
{
    let m = if a >= 0 {
        a
    } else {
        -a
    };
    let d = if b > 0 {
        b
    } else {
        -b
    };
    lemma_fundamental_div_mod(m, d);
    let q = m / d;
    let r = m % d;
    assert(0 <= r < d);
    assert(d * q == q * d) by (nonlinear_arith);
    assert((-q) * b == -(q * b) && q * -b == -(q * b)) by (nonlinear_arith);
}

/// A share in basis points is the ten-thousandth part of amount times basis
/// points: of amounts that are not negative rounded down, and of a debt as much
/// as of the amount.
pub proof fn share_is_in_ten_thousandths(amount: int, bps: int)
    requires
        bps >= 0,
    ensures
        amount >= 0 ==> share_of(amount, bps) * 10_000 <= amount * bps < share_of(amount, bps)
            * 10_000 + 10_000,
        share_of(-amount, bps) == -share_of(amount, bps),
        share_of(amount, 0) == 0,
        share_of(amount, 10_000) == amount,
{
    let product = amount * bps;
    assert((-amount) * bps == -product) by (nonlinear_arith)
        requires
            product == amount * bps,
    ;
    if amount >= 0 {
        assert(product >= 0) by (nonlinear_arith)
            requires
                product == amount * bps,
                amount >= 0,
                bps >= 0,
        ;
    }
    assert(amount * 0 == 0) by (nonlinear_arith);
}

/// Addresses are in one line: of two different ones exactly one comes first, and
/// whoever comes before somebody comes before all after them. Accounts come
/// before contracts, and among the same kind the smaller number of 32 bytes.
pub proof fn addresses_are_ordered(a: Address, b: Address, c: Address)
    ensures
        !a.spec_precedes(a),
        a != b ==> (a.spec_precedes(b) <==> !b.spec_precedes(a)),
        a.spec_precedes(b) && b.spec_precedes(c) ==> a.spec_precedes(c),
        a.kind is Account && b.kind is Contract ==> a.spec_precedes(b),
        a.kind == b.kind ==> (a.spec_precedes(b) <==> a.hi * (u128::MAX + 1) + a.lo < b.hi * (
        u128::MAX + 1) + b.lo),
{
}

/// A digit is what is left of the number when the lower ones are cut off.
proof fn lemma_digit(n: nat, count: nat, i: int)
    requires
        0 <= i < count,
    ensures
        digits(n, count).len() == count,
        digits(n, count)[i] == n as int / pow(256, (count - 1 - i) as nat) % 256,
    decreases count,
{
    reveal_with_fuel(digits, 2);
    let last = (count - 1) as nat;
    if count > 1 {
        lemma_digit(n / 256, last, if i < last {
            i
        } else {
            0
        });
    }
    if i < last {
        let rest = pow(256, (count - 2 - i) as nat);
        lemma_pow_positive(256, (count - 2 - i) as nat);
        lemma_div_denominator(n as int, 256, rest);
        reveal(pow);
        assert(pow(256, (count - 1 - i) as nat) == 256 * rest);
    } else {
        lemma_pow0(256);
    }
}

/// An address is written as a tag, its kind, for an account the type of its key,
/// and its 32 bytes, the highest first.
pub proof fn address_is_written(a: Address, i: int)
    requires
        0 <= i < 16,
    ensures
        a.kind is Account ==> encoding(a).len() == 44 && encoding(a).take(12) == seq![
            0u8,
            0u8,
            0u8,
            18u8,
            0u8,
            0u8,
            0u8,
            0u8,
            0u8,
            0u8,
            0u8,
            0u8,
        ],
        a.kind is Contract ==> encoding(a).len() == 40 && encoding(a).take(8) == seq![
            0u8,
            0u8,
            0u8,
            18u8,
            0u8,
            0u8,
            0u8,
            1u8,
        ],
        encoding(a)[encoding(a).len() - 32 + i] == a.hi as int / pow(256, (15 - i) as nat) % 256,
        encoding(a)[encoding(a).len() - 16 + i] == a.lo as int / pow(256, (15 - i) as nat) % 256,
{
    lemma_digit(a.hi as nat, 16, i);
    lemma_digit(a.lo as nat, 16, i);
    if a.kind is Account {
        assert(encoding(a).take(12) =~= seq![
            0u8,
            0u8,
            0u8,
            18u8,
            0u8,
            0u8,
            0u8,
            0u8,
            0u8,
            0u8,
            0u8,
            0u8,
        ]);
    } else {
        assert(encoding(a).take(8) =~= seq![0u8, 0u8, 0u8, 18u8, 0u8, 0u8, 0u8, 1u8]);
    }
}

/// What is stored under an invoice or an address is itself.
pub proof fn entries_are_themselves(
    address: Address,
    listing: Listing,
    pool: Pool,
    profile: SmeProfile,
)
    ensures
        address@ == address,
        listing@ == listing,
        pool@ == pool,
        profile@ == profile,
{
}

/// A list of entries holds under a key what its last entry with that key holds,
/// and nothing where it has none.
pub proof fn last_entry_counts<K: Key, V: Stored>(entries: Seq<(K, V)>, key: K::V, at: int)
    ensures
        0 <= at < entries.len() && entries[at].0@ == key && (forall|i: int|
            at < i < entries.len() ==> (#[trigger] entries[i]).0@ != key) ==> entries_map(
            entries,
        ).contains_key(key) && entries_map(entries)[key] == entries[at].1@,
        (forall|i: int| 0 <= i < entries.len() ==> (#[trigger] entries[i]).0@ != key)
            ==> !entries_map(entries).contains_key(key),
{
    if 0 <= at < entries.len() && entries[at].0@ == key && (forall|i: int|
        at < i < entries.len() ==> (#[trigger] entries[i]).0@ != key) {
        lemma_present(entries, key, at);
    }
    if forall|i: int| 0 <= i < entries.len() ==> (#[trigger] entries[i]).0@ != key {
        lemma_absent(entries, key);
    }
}

} // verus!
