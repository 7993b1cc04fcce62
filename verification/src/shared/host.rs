//! The host as a contract sees it: what an invocation is told, and what it
//! asks for.

use vstd::prelude::*;

use crate::shared::errors::KoraError;
use crate::shared::events::{Event, EventView};
use crate::shared::types::Address;

verus! {

/// Where a storage entry lives: with the contract instance, or on its own with
/// a lifetime that has to be extended.
#[derive(Clone, Copy, Debug, PartialEq, Eq, Structural)]
pub enum Durability {
    Instance,
    Persistent,
}

/// What the host tells an invocation.
#[derive(Clone, Copy, Debug, PartialEq, Eq, Structural)]
pub struct Context {
    /// Closing time of the current ledger.
    pub timestamp: u64,
    /// Number of the current ledger.
    pub sequence: u32,
    /// The contract that is being invoked.
    pub contract: Address,
    /// Whether access control reports the protocol as paused; `false` where no
    /// access control is wired to the contract.
    pub protocol_paused: bool,
}

/// A call into another contract.
#[derive(Clone, Copy, Debug, PartialEq, Eq, Structural)]
pub enum Call {
    /// `transfer` of a token contract.
    Transfer { token: Address, from: Address, to: Address, amount: i128 },
    /// `set_listed` of the invoice contract.
    SetListed { invoice_nft: Address, caller: Address, invoice_id: u64 },
    /// `set_funded` of the invoice contract.
    SetFunded { invoice_nft: Address, caller: Address, invoice_id: u64 },
    /// `set_repaid` of the invoice contract.
    SetRepaid { invoice_nft: Address, caller: Address, invoice_id: u64 },
    /// `set_defaulted` of the invoice contract.
    SetDefaulted { invoice_nft: Address, caller: Address, invoice_id: u64 },
    /// `release_funds` of the financing pool.
    ReleaseFunds { pool: Address, marketplace: Address, invoice_id: u64, token: Address },
}

/// One thing that an invocation asks of the host: `S` is what it does to the
/// contract's storage, `E` an event.
#[derive(Clone, Debug, PartialEq, Eq)]
pub enum Step<S, E> {
    /// Abort unless the address has authorized the invocation.
    RequireAuth(Address),
    /// Change the contract's storage.
    Store(S),
    /// Publish an event.
    Publish(E),
    /// Call another contract; a call that fails aborts the invocation.
    Call(Call),
}

pub type Effect<S> = Step<S, Event>;

pub type EffectView<V> = Step<V, EventView>;

impl<S: View> View for Step<S, Event> {
    type V = Step<S::V, EventView>;

    open spec fn view(&self) -> Step<S::V, EventView> {
        match *self {
            Step::RequireAuth(who) => Step::RequireAuth(who),
            Step::Store(op) => Step::Store(op@),
            Step::Publish(event) => Step::Publish(event@),
            Step::Call(call) => Step::Call(call),
        }
    }
}

/// One invocation of a contract: its context, and what it has asked of the
/// host so far, in order. The host carries the steps out in that order, and
/// undoes all of them where the invocation ends in an error.
pub struct Invocation<S> {
    pub context: Context,
    pub effects: Vec<Effect<S>>,
}

impl<S: View> Invocation<S> {
    pub open spec fn log(&self) -> Seq<EffectView<S::V>> {
        self.effects@.map_values(|e: Effect<S>| e@)
    }

    pub fn new(context: Context) -> (r: Self)
        ensures
            r.context == context,
            r.log() == Seq::<EffectView<S::V>>::empty(),
    {
        let r = Invocation { context, effects: Vec::new() };
        assert(r.log() =~= Seq::<EffectView<S::V>>::empty());
        r
    }

    /// Asks for one more step.
    fn ask(&mut self, effect: Effect<S>)
        ensures
            final(self).context == old(self).context,
            final(self).log() == old(self).log().push(effect@),
    {
        self.effects.push(effect);
        assert(self.log() =~= old(self).log().push(effect@));
    }

    pub fn require_auth(&mut self, who: Address)
        ensures
            final(self).context == old(self).context,
            final(self).log() == old(self).log().push(Step::RequireAuth(who)),
    {
        self.ask(Step::RequireAuth(who));
    }

    pub fn store(&mut self, op: S)
        ensures
            final(self).context == old(self).context,
            final(self).log() == old(self).log().push(Step::Store(op@)),
    {
        self.ask(Step::Store(op));
    }

    pub fn publish(&mut self, event: Event)
        ensures
            final(self).context == old(self).context,
            final(self).log() == old(self).log().push(Step::Publish(event@)),
    {
        self.ask(Step::Publish(event));
    }

    pub fn call(&mut self, call: Call)
        ensures
            final(self).context == old(self).context,
            final(self).log() == old(self).log().push(Step::Call(call)),
    {
        self.ask(Step::Call(call));
    }
}

/// How an invocation ends: what it returns, the contract's state after it, and
/// the steps it asks for.
pub struct Outcome<A, V, T> {
    pub result: Result<T, KoraError>,
    pub state: A,
    pub log: Seq<EffectView<V>>,
}

impl<A, V, T> Outcome<A, V, T> {
    /// Whether an invocation that began with `before` ended this way.
    pub open spec fn reached<S: View<V = V>>(
        self,
        result: Result<T, KoraError>,
        state: A,
        before: Invocation<S>,
        after: Invocation<S>,
    ) -> bool {
        &&& result == self.result
        &&& state == self.state
        &&& after.context == before.context
        &&& after.log() =~= before.log() + self.log
    }
}

impl<A, V> Outcome<A, V, ()> {
    /// One part of an operation after another: the second is reached only
    /// where the first succeeds.
    pub open spec fn followed_by(self, second: Outcome<A, V, ()>) -> Outcome<A, V, ()> {
        match self.result {
            Err(_) => self,
            Ok(_) => Outcome {
                result: second.result,
                state: second.state,
                log: self.log + second.log,
            },
        }
    }
}

/// A request that is refused: the caller's authorization was asked for, and
/// nothing else has happened.
pub open spec fn refused<A, V, T>(state: A, caller: Address, error: KoraError) -> Outcome<A, V, T> {
    Outcome { result: Err(error), state, log: seq![Step::RequireAuth(caller)] }
}

/// Whether the first step of a log asks for an address's authorization.
pub open spec fn begins_with_authorization<V>(log: Seq<EffectView<V>>, who: Address) -> bool {
    log.len() > 0 && log[0] == Step::<V, EventView>::RequireAuth(who)
}

/// What one step does to the state; `apply` says what a storage step does.
pub open spec fn take_step<A, V>(
    apply: spec_fn(A, V) -> A,
    state: A,
    step: EffectView<V>,
) -> A {
    match step {
        Step::Store(op) => apply(state, op),
        _ => state,
    }
}

/// The state that the first `n` steps of a log lead to.
pub open spec fn replay<A, V>(
    apply: spec_fn(A, V) -> A,
    state: A,
    log: Seq<EffectView<V>>,
    n: int,
) -> A
    decreases n,
{
    if n <= 0 {
        state
    } else {
        take_step(apply, replay(apply, state, log, n - 1), log[n - 1])
    }
}

/// The first steps of a log, one by one.
pub proof fn lemma_first_steps<A, V>(
    apply: spec_fn(A, V) -> A,
    state: A,
    log: Seq<EffectView<V>>,
)
    ensures
        replay(apply, state, log, 0) == state,
        forall|n: int|
            0 < n <= 8 ==> #[trigger] replay(apply, state, log, n) == take_step(
                apply,
                replay(apply, state, log, n - 1),
                log[n - 1],
            ),
{
}

/// Replaying a log that goes on after `a`.
pub proof fn lemma_replay_append<A, V>(
    apply: spec_fn(A, V) -> A,
    state: A,
    a: Seq<EffectView<V>>,
    b: Seq<EffectView<V>>,
    n: int,
)
    requires
        0 <= n <= b.len(),
    ensures
        replay(apply, state, a + b, a.len() + n) == replay(
            apply,
            replay(apply, state, a, a.len() as int),
            b,
            n,
        ),
    decreases n,
{
    if n == 0 {
        lemma_replay_prefix(apply, state, a, b, a.len() as int);
    } else {
        lemma_replay_append(apply, state, a, b, n - 1);
    }
}

/// What comes later in a log does not matter for its first steps.
proof fn lemma_replay_prefix<A, V>(
    apply: spec_fn(A, V) -> A,
    state: A,
    a: Seq<EffectView<V>>,
    b: Seq<EffectView<V>>,
    n: int,
)
    requires
        0 <= n <= a.len(),
    ensures
        replay(apply, state, a + b, n) == replay(apply, state, a, n),
    decreases n,
{
    if n > 0 {
        lemma_replay_prefix(apply, state, a, b, n - 1);
    }
}

} // verus!
