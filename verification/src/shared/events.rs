//! Events: what each of them carries, and publishing them.

use vstd::prelude::*;

use crate::shared::host::{Context, Invocation, Step};
use crate::shared::table::Stored;
use crate::shared::types::Address;

verus! {

/// The symbol under which an event is published.
#[derive(Clone, Copy, Debug, PartialEq, Eq, Structural)]
pub enum Topic {
    InvCrt,
    InvLst,
    InvFnd,
    InvRpd,
    InvDft,
    Repay,
    Yield,
    PoolOpen,
    PosRec,
    LstCxl,
    LstExp,
    FeeCol,
    FeeWth,
    EmrgWth,
    FeeUpd,
    TresIni,
    Paused,
    Unpaused,
    TokWl,
    AdmTrf,
    RolGrt,
    RolRvk,
    VrfAdd,
    VrfRem,
    SmeReg,
    SmeUpd,
    SmeDft,
    SmeInv,
    DbtScr,
}

impl Topic {
    pub open spec fn spec_symbol(self) -> Seq<char> {
        match self {
            Topic::InvCrt => "INV_CRT"@,
            Topic::InvLst => "INV_LST"@,
            Topic::InvFnd => "INV_FND"@,
            Topic::InvRpd => "INV_RPD"@,
            Topic::InvDft => "INV_DFT"@,
            Topic::Repay => "REPAY"@,
            Topic::Yield => "YIELD"@,
            Topic::PoolOpen => "pool_open"@,
            Topic::PosRec => "pos_rec"@,
            Topic::LstCxl => "LST_CXL"@,
            Topic::LstExp => "LST_EXP"@,
            Topic::FeeCol => "FEE_COL"@,
            Topic::FeeWth => "FEE_WTH"@,
            Topic::EmrgWth => "EMRG_WTH"@,
            Topic::FeeUpd => "FEE_UPD"@,
            Topic::TresIni => "TRES_INI"@,
            Topic::Paused => "PAUSED"@,
            Topic::Unpaused => "UNPAUSED"@,
            Topic::TokWl => "TOK_WL"@,
            Topic::AdmTrf => "ADM_TRF"@,
            Topic::RolGrt => "ROL_GRT"@,
            Topic::RolRvk => "ROL_RVK"@,
            Topic::VrfAdd => "VRF_ADD"@,
            Topic::VrfRem => "VRF_REM"@,
            Topic::SmeReg => "SME_REG"@,
            Topic::SmeUpd => "SME_UPD"@,
            Topic::SmeDft => "SME_DFT"@,
            Topic::SmeInv => "SME_INV"@,
            Topic::DbtScr => "DBT_SCR"@,
        }
    }

    pub fn symbol(self) -> (r: &'static str)
        ensures
            r@ == self.spec_symbol(),
    {
        match self {
            Topic::InvCrt => "INV_CRT",
            Topic::InvLst => "INV_LST",
            Topic::InvFnd => "INV_FND",
            Topic::InvRpd => "INV_RPD",
            Topic::InvDft => "INV_DFT",
            Topic::Repay => "REPAY",
            Topic::Yield => "YIELD",
            Topic::PoolOpen => "pool_open",
            Topic::PosRec => "pos_rec",
            Topic::LstCxl => "LST_CXL",
            Topic::LstExp => "LST_EXP",
            Topic::FeeCol => "FEE_COL",
            Topic::FeeWth => "FEE_WTH",
            Topic::EmrgWth => "EMRG_WTH",
            Topic::FeeUpd => "FEE_UPD",
            Topic::TresIni => "TRES_INI",
            Topic::Paused => "PAUSED",
            Topic::Unpaused => "UNPAUSED",
            Topic::TokWl => "TOK_WL",
            Topic::AdmTrf => "ADM_TRF",
            Topic::RolGrt => "ROL_GRT",
            Topic::RolRvk => "ROL_RVK",
            Topic::VrfAdd => "VRF_ADD",
            Topic::VrfRem => "VRF_REM",
            Topic::SmeReg => "SME_REG",
            Topic::SmeUpd => "SME_UPD",
            Topic::SmeDft => "SME_DFT",
            Topic::SmeInv => "SME_INV",
            Topic::DbtScr => "DBT_SCR",
        }
    }
}

/// One value of an event's data; `B` is a string of bytes.
#[derive(Clone, Debug, PartialEq, Eq)]
pub enum Value<B> {
    U32(u32),
    U64(u64),
    I128(i128),
    Address(Address),
    Bytes(B),
}

impl View for Value<Vec<u8>> {
    type V = Value<Seq<u8>>;

    open spec fn view(&self) -> Value<Seq<u8>> {
        match *self {
            Value::U32(n) => Value::U32(n),
            Value::U64(n) => Value::U64(n),
            Value::I128(n) => Value::I128(n),
            Value::Address(a) => Value::Address(a),
            Value::Bytes(b) => Value::Bytes(b@),
        }
    }
}

/// How the values of an event are put together: a single value stands bare,
/// others form a tuple.
#[derive(Clone, Copy, Debug, PartialEq, Eq, Structural)]
pub enum Shape {
    Bare,
    Tuple,
}

#[derive(Clone, Debug, PartialEq, Eq)]
pub struct Event {
    pub topic: Topic,
    pub shape: Shape,
    pub data: Vec<Value<Vec<u8>>>,
}

pub struct EventView {
    pub topic: Topic,
    pub shape: Shape,
    pub data: Seq<Value<Seq<u8>>>,
}

impl View for Event {
    type V = EventView;

    open spec fn view(&self) -> EventView {
        EventView {
            topic: self.topic,
            shape: self.shape,
            data: self.data@.map_values(|v: Value<Vec<u8>>| v@),
        }
    }
}

/// Publishes a tuple of values.
fn emit<S: View>(env: &mut Invocation<S>, topic: Topic, data: Vec<Value<Vec<u8>>>)
    ensures
        final(env).context == old(env).context,
        final(env).log() == old(env).log().push(
            Step::Publish(tuple_event(topic, data@.map_values(|v: Value<Vec<u8>>| v@))),
        ),
{
    env.publish(Event { topic, shape: Shape::Tuple, data });
}

/// Publishes a single address.
fn emit_bare<S: View>(env: &mut Invocation<S>, topic: Topic, value: Address)
    ensures
        final(env).context == old(env).context,
        final(env).log() == old(env).log().push(Step::Publish(bare_event(topic, value))),
{
    let event = Event { topic, shape: Shape::Bare, data: vec![Value::Address(value)] };
    assert(event@.data =~= seq![Value::Address(value)]);
    env.publish(event);
}

pub open spec fn tuple_event(topic: Topic, data: Seq<Value<Seq<u8>>>) -> EventView {
    EventView { topic, shape: Shape::Tuple, data }
}

pub open spec fn bare_event(topic: Topic, value: Address) -> EventView {
    EventView { topic, shape: Shape::Bare, data: seq![Value::Address(value)] }
}

// Invoice events

/// An invoice was created.
pub open spec fn invoice_created_event(
    cx: Context,
    invoice_id: u64,
    sme: Address,
    amount: i128,
) -> EventView {
    tuple_event(
        Topic::InvCrt,
        seq![
            Value::U64(invoice_id),
            Value::Address(sme),
            Value::I128(amount),
            Value::U64(cx.timestamp),
        ],
    )
}

pub fn invoice_created<S: View>(
    env: &mut Invocation<S>,
    invoice_id: u64,
    sme: &Address,
    amount: i128,
)
    ensures
        final(env).context == old(env).context,
        final(env).log() == old(env).log().push(
            Step::Publish(invoice_created_event(old(env).context, invoice_id, *sme, amount)),
        ),
{
    let data: Vec<Value<Vec<u8>>> = vec![
        Value::U64(invoice_id),
        Value::Address(*sme),
        Value::I128(amount),
        Value::U64(env.context.timestamp),
    ];
    assert(data@.map_values(|v: Value<Vec<u8>>| v@) =~= invoice_created_event(
        env.context,
        invoice_id,
        *sme,
        amount,
    ).data);
    emit(env, Topic::InvCrt, data);
}

/// An invoice was listed for financing: actor (seller), listing, amount
/// (asking price), time.
pub open spec fn invoice_listed_event(
    cx: Context,
    invoice_id: u64,
    seller: Address,
    asking_price: i128,
) -> EventView {
    tuple_event(
        Topic::InvLst,
        seq![
            Value::Address(seller),
            Value::U64(invoice_id),
            Value::I128(asking_price),
            Value::U64(cx.timestamp),
        ],
    )
}

pub fn invoice_listed<S: View>(
    env: &mut Invocation<S>,
    invoice_id: u64,
    seller: &Address,
    asking_price: i128,
)
    ensures
        final(env).context == old(env).context,
        final(env).log() == old(env).log().push(
            Step::Publish(invoice_listed_event(
                old(env).context,
                invoice_id,
                *seller,
                asking_price,
            )),
        ),
{
    let data: Vec<Value<Vec<u8>>> = vec![
        Value::Address(*seller),
        Value::U64(invoice_id),
        Value::I128(asking_price),
        Value::U64(env.context.timestamp),
    ];
    assert(data@.map_values(|v: Value<Vec<u8>>| v@) =~= invoice_listed_event(
        env.context,
        invoice_id,
        *seller,
        asking_price,
    ).data);
    emit(env, Topic::InvLst, data);
}

/// An investor funded a listing: actor (investor), listing, amount, time.
pub open spec fn invoice_funded_event(
    cx: Context,
    invoice_id: u64,
    investor: Address,
    amount: i128,
) -> EventView {
    tuple_event(
        Topic::InvFnd,
        seq![
            Value::Address(investor),
            Value::U64(invoice_id),
            Value::I128(amount),
            Value::U64(cx.timestamp),
        ],
    )
}

pub fn invoice_funded<S: View>(
    env: &mut Invocation<S>,
    invoice_id: u64,
    investor: &Address,
    amount: i128,
)
    ensures
        final(env).context == old(env).context,
        final(env).log() == old(env).log().push(
            Step::Publish(invoice_funded_event(old(env).context, invoice_id, *investor, amount)),
        ),
{
    let data: Vec<Value<Vec<u8>>> = vec![
        Value::Address(*investor),
        Value::U64(invoice_id),
        Value::I128(amount),
        Value::U64(env.context.timestamp),
    ];
    assert(data@.map_values(|v: Value<Vec<u8>>| v@) =~= invoice_funded_event(
        env.context,
        invoice_id,
        *investor,
        amount,
    ).data);
    emit(env, Topic::InvFnd, data);
}

/// An invoice was repaid.
pub open spec fn invoice_repaid_event(invoice_id: u64, sme: Address, amount: i128) -> EventView {
    tuple_event(
        Topic::InvRpd,
        seq![Value::U64(invoice_id), Value::Address(sme), Value::I128(amount)],
    )
}

pub fn invoice_repaid<S: View>(
    env: &mut Invocation<S>,
    invoice_id: u64,
    sme: &Address,
    amount: i128,
)
    ensures
        final(env).context == old(env).context,
        final(env).log() == old(env).log().push(
            Step::Publish(invoice_repaid_event(invoice_id, *sme, amount)),
        ),
{
    let data: Vec<Value<Vec<u8>>> = vec![
        Value::U64(invoice_id),
        Value::Address(*sme),
        Value::I128(amount),
    ];
    assert(data@.map_values(|v: Value<Vec<u8>>| v@) =~= invoice_repaid_event(
        invoice_id,
        *sme,
        amount,
    ).data);
    emit(env, Topic::InvRpd, data);
}

/// An invoice was marked as defaulted.
pub open spec fn invoice_defaulted_event(cx: Context, invoice_id: u64, sme: Address) -> EventView {
    tuple_event(
        Topic::InvDft,
        seq![Value::U64(invoice_id), Value::Address(sme), Value::U64(cx.timestamp)],
    )
}

pub fn invoice_defaulted<S: View>(env: &mut Invocation<S>, invoice_id: u64, sme: &Address)
    ensures
        final(env).context == old(env).context,
        final(env).log() == old(env).log().push(
            Step::Publish(invoice_defaulted_event(old(env).context, invoice_id, *sme)),
        ),
{
    let data: Vec<Value<Vec<u8>>> = vec![
        Value::U64(invoice_id),
        Value::Address(*sme),
        Value::U64(env.context.timestamp),
    ];
    assert(data@.map_values(|v: Value<Vec<u8>>| v@) =~= invoice_defaulted_event(
        env.context,
        invoice_id,
        *sme,
    ).data);
    emit(env, Topic::InvDft, data);
}

// Repayment events

/// A repayment reached the pool.
pub open spec fn repayment_made_event(invoice_id: u64, payer: Address, amount: i128) -> EventView {
    tuple_event(
        Topic::Repay,
        seq![Value::U64(invoice_id), Value::Address(payer), Value::I128(amount)],
    )
}

pub fn repayment_made<S: View>(
    env: &mut Invocation<S>,
    invoice_id: u64,
    payer: &Address,
    amount: i128,
)
    ensures
        final(env).context == old(env).context,
        final(env).log() == old(env).log().push(
            Step::Publish(repayment_made_event(invoice_id, *payer, amount)),
        ),
{
    let data: Vec<Value<Vec<u8>>> = vec![
        Value::U64(invoice_id),
        Value::Address(*payer),
        Value::I128(amount),
    ];
    assert(data@.map_values(|v: Value<Vec<u8>>| v@) =~= repayment_made_event(
        invoice_id,
        *payer,
        amount,
    ).data);
    emit(env, Topic::Repay, data);
}

/// An investor was paid out of a repayment.
pub open spec fn yield_distributed_event(
    invoice_id: u64,
    investor: Address,
    yield_amount: i128,
) -> EventView {
    tuple_event(
        Topic::Yield,
        seq![Value::U64(invoice_id), Value::Address(investor), Value::I128(yield_amount)],
    )
}

pub fn yield_distributed<S: View>(
    env: &mut Invocation<S>,
    invoice_id: u64,
    investor: &Address,
    yield_amount: i128,
)
    ensures
        final(env).context == old(env).context,
        final(env).log() == old(env).log().push(
            Step::Publish(yield_distributed_event(invoice_id, *investor, yield_amount)),
        ),
{
    let data: Vec<Value<Vec<u8>>> = vec![
        Value::U64(invoice_id),
        Value::Address(*investor),
        Value::I128(yield_amount),
    ];
    assert(data@.map_values(|v: Value<Vec<u8>>| v@) =~= yield_distributed_event(
        invoice_id,
        *investor,
        yield_amount,
    ).data);
    emit(env, Topic::Yield, data);
}

/// A pool was opened for an invoice.
pub open spec fn pool_opened_event(cx: Context, invoice_id: u64, actor: Address) -> EventView {
    tuple_event(
        Topic::PoolOpen,
        seq![Value::U64(invoice_id), Value::Address(actor), Value::U32(cx.sequence)],
    )
}

pub fn pool_opened<S: View>(env: &mut Invocation<S>, invoice_id: u64, actor: &Address)
    ensures
        final(env).context == old(env).context,
        final(env).log() == old(env).log().push(
            Step::Publish(pool_opened_event(old(env).context, invoice_id, *actor)),
        ),
{
    let data: Vec<Value<Vec<u8>>> = vec![
        Value::U64(invoice_id),
        Value::Address(*actor),
        Value::U32(env.context.sequence),
    ];
    assert(data@.map_values(|v: Value<Vec<u8>>| v@) =~= pool_opened_event(
        env.context,
        invoice_id,
        *actor,
    ).data);
    emit(env, Topic::PoolOpen, data);
}

/// An investor's position in a pool was recorded.
pub open spec fn position_recorded_event(
    cx: Context,
    invoice_id: u64,
    actor: Address,
    investor: Address,
    amount: i128,
) -> EventView {
    tuple_event(
        Topic::PosRec,
        seq![
            Value::U64(invoice_id),
            Value::Address(actor),
            Value::Address(investor),
            Value::I128(amount),
            Value::U32(cx.sequence),
        ],
    )
}

pub fn position_recorded<S: View>(
    env: &mut Invocation<S>,
    invoice_id: u64,
    actor: &Address,
    investor: &Address,
    amount: i128,
)
    ensures
        final(env).context == old(env).context,
        final(env).log() == old(env).log().push(
            Step::Publish(position_recorded_event(
                old(env).context,
                invoice_id,
                *actor,
                *investor,
                amount,
            )),
        ),
{
    let data: Vec<Value<Vec<u8>>> = vec![
        Value::U64(invoice_id),
        Value::Address(*actor),
        Value::Address(*investor),
        Value::I128(amount),
        Value::U32(env.context.sequence),
    ];
    assert(data@.map_values(|v: Value<Vec<u8>>| v@) =~= position_recorded_event(
        env.context,
        invoice_id,
        *actor,
        *investor,
        amount,
    ).data);
    emit(env, Topic::PosRec, data);
}

// Marketplace events

/// A listing was cancelled.
pub open spec fn listing_cancelled_event(
    cx: Context,
    invoice_id: u64,
    seller: Address,
) -> EventView {
    tuple_event(
        Topic::LstCxl,
        seq![Value::U64(invoice_id), Value::Address(seller), Value::U64(cx.timestamp)],
    )
}

pub fn listing_cancelled<S: View>(env: &mut Invocation<S>, invoice_id: u64, seller: &Address)
    ensures
        final(env).context == old(env).context,
        final(env).log() == old(env).log().push(
            Step::Publish(listing_cancelled_event(old(env).context, invoice_id, *seller)),
        ),
{
    let data: Vec<Value<Vec<u8>>> = vec![
        Value::U64(invoice_id),
        Value::Address(*seller),
        Value::U64(env.context.timestamp),
    ];
    assert(data@.map_values(|v: Value<Vec<u8>>| v@) =~= listing_cancelled_event(
        env.context,
        invoice_id,
        *seller,
    ).data);
    emit(env, Topic::LstCxl, data);
}

/// The funding deadline of a listing passed: actor (seller), listing, amount
/// (zero), time.
pub open spec fn listing_expired_event(cx: Context, invoice_id: u64, seller: Address) -> EventView {
    tuple_event(
        Topic::LstExp,
        seq![
            Value::Address(seller),
            Value::U64(invoice_id),
            Value::I128(0),
            Value::U64(cx.timestamp),
        ],
    )
}

pub fn listing_expired<S: View>(env: &mut Invocation<S>, invoice_id: u64, seller: &Address)
    ensures
        final(env).context == old(env).context,
        final(env).log() == old(env).log().push(
            Step::Publish(listing_expired_event(old(env).context, invoice_id, *seller)),
        ),
{
    let data: Vec<Value<Vec<u8>>> = vec![
        Value::Address(*seller),
        Value::U64(invoice_id),
        Value::I128(0),
        Value::U64(env.context.timestamp),
    ];
    assert(data@.map_values(|v: Value<Vec<u8>>| v@) =~= listing_expired_event(
        env.context,
        invoice_id,
        *seller,
    ).data);
    emit(env, Topic::LstExp, data);
}

// Fee events

/// A fee was collected from a funding: actor (investor), listing, amount (fee),
/// token, time.
pub open spec fn fee_collected_event(
    cx: Context,
    invoice_id: u64,
    investor: Address,
    fee_amount: i128,
    token: Address,
) -> EventView {
    tuple_event(
        Topic::FeeCol,
        seq![
            Value::Address(investor),
            Value::U64(invoice_id),
            Value::I128(fee_amount),
            Value::Address(token),
            Value::U64(cx.timestamp),
        ],
    )
}

pub fn fee_collected<S: View>(
    env: &mut Invocation<S>,
    invoice_id: u64,
    investor: &Address,
    fee_amount: i128,
    token: &Address,
)
    ensures
        final(env).context == old(env).context,
        final(env).log() == old(env).log().push(
            Step::Publish(fee_collected_event(
                old(env).context,
                invoice_id,
                *investor,
                fee_amount,
                *token,
            )),
        ),
{
    let data: Vec<Value<Vec<u8>>> = vec![
        Value::Address(*investor),
        Value::U64(invoice_id),
        Value::I128(fee_amount),
        Value::Address(*token),
        Value::U64(env.context.timestamp),
    ];
    assert(data@.map_values(|v: Value<Vec<u8>>| v@) =~= fee_collected_event(
        env.context,
        invoice_id,
        *investor,
        fee_amount,
        *token,
    ).data);
    emit(env, Topic::FeeCol, data);
}

/// Fees were withdrawn from the treasury.
pub open spec fn fee_withdrawn_event(token: Address, amount: i128) -> EventView {
    tuple_event(
        Topic::FeeWth,
        seq![Value::Address(token), Value::I128(amount)],
    )
}

pub fn fee_withdrawn<S: View>(env: &mut Invocation<S>, token: &Address, amount: i128)
    ensures
        final(env).context == old(env).context,
        final(env).log() == old(env).log().push(
            Step::Publish(fee_withdrawn_event(*token, amount)),
        ),
{
    let data: Vec<Value<Vec<u8>>> = vec![Value::Address(*token), Value::I128(amount)];
    assert(data@.map_values(|v: Value<Vec<u8>>| v@) =~= fee_withdrawn_event(*token, amount).data);
    emit(env, Topic::FeeWth, data);
}

/// The full balance of a token was drained in an emergency.
pub open spec fn emergency_withdrawn_event(by: Address, token: Address, amount: i128) -> EventView {
    tuple_event(
        Topic::EmrgWth,
        seq![Value::Address(by), Value::Address(token), Value::I128(amount)],
    )
}

pub fn emergency_withdrawn<S: View>(
    env: &mut Invocation<S>,
    by: &Address,
    token: &Address,
    amount: i128,
)
    ensures
        final(env).context == old(env).context,
        final(env).log() == old(env).log().push(
            Step::Publish(emergency_withdrawn_event(*by, *token, amount)),
        ),
{
    let data: Vec<Value<Vec<u8>>> = vec![
        Value::Address(*by),
        Value::Address(*token),
        Value::I128(amount),
    ];
    assert(data@.map_values(|v: Value<Vec<u8>>| v@) =~= emergency_withdrawn_event(
        *by,
        *token,
        amount,
    ).data);
    emit(env, Topic::EmrgWth, data);
}

/// The protocol fee rate was updated.
pub open spec fn fee_rate_updated_event(by: Address, old_bps: u32, new_bps: u32) -> EventView {
    tuple_event(
        Topic::FeeUpd,
        seq![Value::Address(by), Value::U32(old_bps), Value::U32(new_bps)],
    )
}

pub fn fee_rate_updated<S: View>(env: &mut Invocation<S>, by: &Address, old_bps: u32, new_bps: u32)
    ensures
        final(env).context == old(env).context,
        final(env).log() == old(env).log().push(
            Step::Publish(fee_rate_updated_event(*by, old_bps, new_bps)),
        ),
{
    let data: Vec<Value<Vec<u8>>> = vec![
        Value::Address(*by),
        Value::U32(old_bps),
        Value::U32(new_bps),
    ];
    assert(data@.map_values(|v: Value<Vec<u8>>| v@) =~= fee_rate_updated_event(
        *by,
        old_bps,
        new_bps,
    ).data);
    emit(env, Topic::FeeUpd, data);
}

/// The treasury was initialized.
pub open spec fn treasury_initialized_event(admin: Address, fee_bps: u32) -> EventView {
    tuple_event(
        Topic::TresIni,
        seq![Value::Address(admin), Value::U32(fee_bps)],
    )
}

pub fn treasury_initialized<S: View>(env: &mut Invocation<S>, admin: &Address, fee_bps: u32)
    ensures
        final(env).context == old(env).context,
        final(env).log() == old(env).log().push(
            Step::Publish(treasury_initialized_event(*admin, fee_bps)),
        ),
{
    let data: Vec<Value<Vec<u8>>> = vec![Value::Address(*admin), Value::U32(fee_bps)];
    assert(data@.map_values(|v: Value<Vec<u8>>| v@) =~= treasury_initialized_event(
        *admin,
        fee_bps,
    ).data);
    emit(env, Topic::TresIni, data);
}

// Protocol events

/// The protocol was paused.
pub open spec fn protocol_paused_event(cx: Context, by: Address) -> EventView {
    tuple_event(
        Topic::Paused,
        seq![Value::Address(by), Value::U64(cx.timestamp)],
    )
}

pub fn protocol_paused<S: View>(env: &mut Invocation<S>, by: &Address)
    ensures
        final(env).context == old(env).context,
        final(env).log() == old(env).log().push(
            Step::Publish(protocol_paused_event(old(env).context, *by)),
        ),
{
    let data: Vec<Value<Vec<u8>>> = vec![Value::Address(*by), Value::U64(env.context.timestamp)];
    assert(data@.map_values(|v: Value<Vec<u8>>| v@) =~= protocol_paused_event(
        env.context,
        *by,
    ).data);
    emit(env, Topic::Paused, data);
}

/// The protocol was unpaused.
pub open spec fn protocol_unpaused_event(cx: Context, by: Address) -> EventView {
    tuple_event(
        Topic::Unpaused,
        seq![Value::Address(by), Value::U64(cx.timestamp)],
    )
}

pub fn protocol_unpaused<S: View>(env: &mut Invocation<S>, by: &Address)
    ensures
        final(env).context == old(env).context,
        final(env).log() == old(env).log().push(
            Step::Publish(protocol_unpaused_event(old(env).context, *by)),
        ),
{
    let data: Vec<Value<Vec<u8>>> = vec![Value::Address(*by), Value::U64(env.context.timestamp)];
    assert(data@.map_values(|v: Value<Vec<u8>>| v@) =~= protocol_unpaused_event(
        env.context,
        *by,
    ).data);
    emit(env, Topic::Unpaused, data);
}

/// A token was whitelisted.
pub open spec fn token_whitelisted_event(token: Address) -> EventView {
    bare_event(Topic::TokWl, token)
}

pub fn token_whitelisted<S: View>(env: &mut Invocation<S>, token: &Address)
    ensures
        final(env).context == old(env).context,
        final(env).log() == old(env).log().push(
            Step::Publish(token_whitelisted_event(*token)),
        ),
{
    emit_bare(env, Topic::TokWl, *token);
}

/// The admin changed.
pub open spec fn admin_transferred_event(new_admin: Address) -> EventView {
    bare_event(Topic::AdmTrf, new_admin)
}

pub fn admin_transferred<S: View>(env: &mut Invocation<S>, new_admin: &Address)
    ensures
        final(env).context == old(env).context,
        final(env).log() == old(env).log().push(
            Step::Publish(admin_transferred_event(*new_admin)),
        ),
{
    emit_bare(env, Topic::AdmTrf, *new_admin);
}

/// A role was granted.
pub open spec fn role_granted_event(admin: Address, target: Address) -> EventView {
    tuple_event(
        Topic::RolGrt,
        seq![Value::Address(admin), Value::Address(target)],
    )
}

pub fn role_granted<S: View>(env: &mut Invocation<S>, admin: &Address, target: &Address)
    ensures
        final(env).context == old(env).context,
        final(env).log() == old(env).log().push(
            Step::Publish(role_granted_event(*admin, *target)),
        ),
{
    let data: Vec<Value<Vec<u8>>> = vec![Value::Address(*admin), Value::Address(*target)];
    assert(data@.map_values(|v: Value<Vec<u8>>| v@) =~= role_granted_event(*admin, *target).data);
    emit(env, Topic::RolGrt, data);
}

/// A role was revoked.
pub open spec fn role_revoked_event(admin: Address, target: Address) -> EventView {
    tuple_event(
        Topic::RolRvk,
        seq![Value::Address(admin), Value::Address(target)],
    )
}

pub fn role_revoked<S: View>(env: &mut Invocation<S>, admin: &Address, target: &Address)
    ensures
        final(env).context == old(env).context,
        final(env).log() == old(env).log().push(
            Step::Publish(role_revoked_event(*admin, *target)),
        ),
{
    let data: Vec<Value<Vec<u8>>> = vec![Value::Address(*admin), Value::Address(*target)];
    assert(data@.map_values(|v: Value<Vec<u8>>| v@) =~= role_revoked_event(*admin, *target).data);
    emit(env, Topic::RolRvk, data);
}

// Risk registry events

/// The admin whitelisted a verifier: admin, verifier, time.
pub open spec fn verifier_added_event(cx: Context, admin: Address, verifier: Address) -> EventView {
    tuple_event(
        Topic::VrfAdd,
        seq![Value::Address(admin), Value::Address(verifier), Value::U64(cx.timestamp)],
    )
}

pub fn verifier_added<S: View>(env: &mut Invocation<S>, admin: &Address, verifier: &Address)
    ensures
        final(env).context == old(env).context,
        final(env).log() == old(env).log().push(
            Step::Publish(verifier_added_event(old(env).context, *admin, *verifier)),
        ),
{
    let data: Vec<Value<Vec<u8>>> = vec![
        Value::Address(*admin),
        Value::Address(*verifier),
        Value::U64(env.context.timestamp),
    ];
    assert(data@.map_values(|v: Value<Vec<u8>>| v@) =~= verifier_added_event(
        env.context,
        *admin,
        *verifier,
    ).data);
    emit(env, Topic::VrfAdd, data);
}

/// The admin removed a verifier: admin, verifier, time.
pub open spec fn verifier_removed_event(
    cx: Context,
    admin: Address,
    verifier: Address,
) -> EventView {
    tuple_event(
        Topic::VrfRem,
        seq![Value::Address(admin), Value::Address(verifier), Value::U64(cx.timestamp)],
    )
}

pub fn verifier_removed<S: View>(env: &mut Invocation<S>, admin: &Address, verifier: &Address)
    ensures
        final(env).context == old(env).context,
        final(env).log() == old(env).log().push(
            Step::Publish(verifier_removed_event(old(env).context, *admin, *verifier)),
        ),
{
    let data: Vec<Value<Vec<u8>>> = vec![
        Value::Address(*admin),
        Value::Address(*verifier),
        Value::U64(env.context.timestamp),
    ];
    assert(data@.map_values(|v: Value<Vec<u8>>| v@) =~= verifier_removed_event(
        env.context,
        *admin,
        *verifier,
    ).data);
    emit(env, Topic::VrfRem, data);
}

/// A verifier registered an SME: verifier, SME, score, time.
pub open spec fn sme_registered_event(
    cx: Context,
    verifier: Address,
    sme: Address,
    risk_score: u32,
) -> EventView {
    tuple_event(
        Topic::SmeReg,
        seq![
            Value::Address(verifier),
            Value::Address(sme),
            Value::U32(risk_score),
            Value::U64(cx.timestamp),
        ],
    )
}

pub fn sme_registered<S: View>(
    env: &mut Invocation<S>,
    verifier: &Address,
    sme: &Address,
    risk_score: u32,
)
    ensures
        final(env).context == old(env).context,
        final(env).log() == old(env).log().push(
            Step::Publish(sme_registered_event(old(env).context, *verifier, *sme, risk_score)),
        ),
{
    let data: Vec<Value<Vec<u8>>> = vec![
        Value::Address(*verifier),
        Value::Address(*sme),
        Value::U32(risk_score),
        Value::U64(env.context.timestamp),
    ];
    assert(data@.map_values(|v: Value<Vec<u8>>| v@) =~= sme_registered_event(
        env.context,
        *verifier,
        *sme,
        risk_score,
    ).data);
    emit(env, Topic::SmeReg, data);
}

/// A verifier updated an SME's score: verifier, SME, new score, time.
pub open spec fn sme_score_updated_event(
    cx: Context,
    verifier: Address,
    sme: Address,
    new_score: u32,
) -> EventView {
    tuple_event(
        Topic::SmeUpd,
        seq![
            Value::Address(verifier),
            Value::Address(sme),
            Value::U32(new_score),
            Value::U64(cx.timestamp),
        ],
    )
}

pub fn sme_score_updated<S: View>(
    env: &mut Invocation<S>,
    verifier: &Address,
    sme: &Address,
    new_score: u32,
)
    ensures
        final(env).context == old(env).context,
        final(env).log() == old(env).log().push(
            Step::Publish(sme_score_updated_event(old(env).context, *verifier, *sme, new_score)),
        ),
{
    let data: Vec<Value<Vec<u8>>> = vec![
        Value::Address(*verifier),
        Value::Address(*sme),
        Value::U32(new_score),
        Value::U64(env.context.timestamp),
    ];
    assert(data@.map_values(|v: Value<Vec<u8>>| v@) =~= sme_score_updated_event(
        env.context,
        *verifier,
        *sme,
        new_score,
    ).data);
    emit(env, Topic::SmeUpd, data);
}

/// The admin recorded a default: admin, SME, number of defaults, time.
pub open spec fn sme_default_recorded_event(
    cx: Context,
    admin: Address,
    sme: Address,
    total_defaults: u32,
) -> EventView {
    tuple_event(
        Topic::SmeDft,
        seq![
            Value::Address(admin),
            Value::Address(sme),
            Value::U32(total_defaults),
            Value::U64(cx.timestamp),
        ],
    )
}

pub fn sme_default_recorded<S: View>(
    env: &mut Invocation<S>,
    admin: &Address,
    sme: &Address,
    total_defaults: u32,
)
    ensures
        final(env).context == old(env).context,
        final(env).log() == old(env).log().push(
            Step::Publish(sme_default_recorded_event(
                old(env).context,
                *admin,
                *sme,
                total_defaults,
            )),
        ),
{
    let data: Vec<Value<Vec<u8>>> = vec![
        Value::Address(*admin),
        Value::Address(*sme),
        Value::U32(total_defaults),
        Value::U64(env.context.timestamp),
    ];
    assert(data@.map_values(|v: Value<Vec<u8>>| v@) =~= sme_default_recorded_event(
        env.context,
        *admin,
        *sme,
        total_defaults,
    ).data);
    emit(env, Topic::SmeDft, data);
}

/// The invoice contract counted another invoice of an SME: SME, new total, time.
pub open spec fn sme_invoice_count_incremented_event(
    cx: Context,
    sme: Address,
    new_total: u32,
) -> EventView {
    tuple_event(
        Topic::SmeInv,
        seq![Value::Address(sme), Value::U32(new_total), Value::U64(cx.timestamp)],
    )
}

pub fn sme_invoice_count_incremented<S: View>(
    env: &mut Invocation<S>,
    sme: &Address,
    new_total: u32,
)
    ensures
        final(env).context == old(env).context,
        final(env).log() == old(env).log().push(
            Step::Publish(sme_invoice_count_incremented_event(old(env).context, *sme, new_total)),
        ),
{
    let data: Vec<Value<Vec<u8>>> = vec![
        Value::Address(*sme),
        Value::U32(new_total),
        Value::U64(env.context.timestamp),
    ];
    assert(data@.map_values(|v: Value<Vec<u8>>| v@) =~= sme_invoice_count_incremented_event(
        env.context,
        *sme,
        new_total,
    ).data);
    emit(env, Topic::SmeInv, data);
}

/// A verifier set the score of a debtor: verifier, debtor hash, score, time.
pub open spec fn debtor_score_set_event(
    cx: Context,
    verifier: Address,
    debtor_hash: Seq<u8>,
    score: u32,
) -> EventView {
    tuple_event(
        Topic::DbtScr,
        seq![
            Value::Address(verifier),
            Value::Bytes(debtor_hash),
            Value::U32(score),
            Value::U64(cx.timestamp),
        ],
    )
}

pub fn debtor_score_set<S: View>(
    env: &mut Invocation<S>,
    verifier: &Address,
    debtor_hash: &Vec<u8>,
    score: u32,
)
    ensures
        final(env).context == old(env).context,
        final(env).log() == old(env).log().push(
            Step::Publish(debtor_score_set_event(old(env).context, *verifier, debtor_hash@, score)),
        ),
{
    let data: Vec<Value<Vec<u8>>> = vec![
        Value::Address(*verifier),
        Value::Bytes(debtor_hash.duplicate()),
        Value::U32(score),
        Value::U64(env.context.timestamp),
    ];
    assert(data@.map_values(|v: Value<Vec<u8>>| v@) =~= debtor_score_set_event(
        env.context,
        *verifier,
        debtor_hash@,
        score,
    ).data);
    emit(env, Topic::DbtScr, data);
}

} // verus!
