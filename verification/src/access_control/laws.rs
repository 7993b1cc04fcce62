//! What holds of the contract as a whole.

use vstd::prelude::*;

use crate::access_control::model::{
    self, assigned_role, bump, deployed, grant_role, initialize, pause, revoke_role, role_of,
    stored, touch, transfer_admin, unpause, State,
};
use crate::access_control::{DataKey, Role, StoreOp};
use crate::shared::errors::KoraError;
use crate::shared::events;
use crate::shared::host::{
    begins_with_authorization, lemma_first_steps, lemma_replay_append, replay, Context, EffectView,
    Outcome, Step,
};
use crate::shared::types::Address;

verus! {

/// A request that can change what the contract stores.
pub enum Request {
    Initialize { admin: Address },
    Pause { admin: Address },
    Unpause { admin: Address },
    GrantRole { admin: Address, target: Address, role: Role },
    RevokeRole { admin: Address, target: Address },
    TransferAdmin { current_admin: Address, new_admin: Address },
}

impl Request {
    /// Who makes the request: the one whose authorization it needs.
    pub open spec fn caller(self) -> Option<Address> {
        match self {
            Request::Initialize { .. } => None,
            Request::Pause { admin } => Some(admin),
            Request::Unpause { admin } => Some(admin),
            Request::GrantRole { admin, .. } => Some(admin),
            Request::RevokeRole { admin, .. } => Some(admin),
            Request::TransferAdmin { current_admin, .. } => Some(current_admin),
        }
    }
}

/// How a request ends.
pub open spec fn perform(s: State, cx: Context, request: Request) -> Outcome<State, StoreOp, ()> {
    match request {
        Request::Initialize { admin } => initialize(s, admin),
        Request::Pause { admin } => pause(s, cx, admin),
        Request::Unpause { admin } => unpause(s, cx, admin),
        Request::GrantRole { admin, target, role } => grant_role(s, admin, target, role),
        Request::RevokeRole { admin, target } => revoke_role(s, admin, target),
        Request::TransferAdmin { current_admin, new_admin } => transfer_admin(
            s,
            current_admin,
            new_admin,
        ),
    }
}

/// The state of the contract after a history of requests.
pub open spec fn after(history: Seq<(Context, Request)>) -> State
    decreases history.len(),
{
    if history.len() == 0 {
        deployed()
    } else {
        perform(after(history.drop_last()), history.last().0, history.last().1).state
    }
}

/// The entry of the admin, and no other, says `Admin`; no entry says that there
/// is no role; no operation is under way.
pub open spec fn consistent(s: State) -> bool {
    &&& !s.guard
    &&& forall|a: Address| #[trigger]
        s.roles.contains_key(a) ==> s.roles[a] != Role::NoRole && (s.roles[a] == Role::Admin
            <==> s.admin == Some(a))
}

/// Every request keeps the contract consistent.
pub proof fn consistency_is_kept(s: State, cx: Context, request: Request)
    requires
        consistent(s),
    ensures
        consistent(perform(s, cx, request).state),
{
}

/// The contract is consistent after every history of requests.
pub proof fn always_consistent(history: Seq<(Context, Request)>)
    ensures
        consistent(after(history)),
    decreases history.len(),
{
    if history.len() > 0 {
        always_consistent(history.drop_last());
        consistency_is_kept(after(history.drop_last()), history.last().0, history.last().1);
    }
}

/// Exactly one admin: an address has the role `Admin` where it is the admin,
/// and no other address has it.
pub proof fn admin_is_unique(s: State, address: Address)
    requires
        consistent(s),
    ensures
        role_of(s, address) == Role::Admin <==> s.admin == Some(address),
{
}

/// Once there is an admin there always is one, only a transfer that the admin
/// asks for changes who it is, and initializing again is refused whoever asks.
pub proof fn admin_changes_only_by_transfer(s: State, cx: Context, request: Request, other: Address)
    requires
        s.admin is Some,
    ensures
        ({
            let end = perform(s, cx, request);
            &&& end.state.admin is Some
            &&& end.state.admin != s.admin ==> {
                &&& request matches Request::TransferAdmin { current_admin, new_admin }
                &&& s.admin == Some(current_admin)
                &&& end.state.admin == Some(new_admin)
                &&& end.result is Ok
            }
            &&& initialize(end.state, other).result == Err::<(), KoraError>(
                KoraError::AlreadyInitialized,
            )
            &&& initialize(end.state, other).state == end.state
        }),
{
}

/// A request that fails changes nothing.
pub proof fn failure_changes_nothing(s: State, cx: Context, request: Request)
    ensures
        perform(s, cx, request).result is Err ==> perform(s, cx, request).state == s,
{
}

/// Whoever is not the admin is refused, whatever they ask for, and changes
/// nothing.
pub proof fn only_the_admin_is_served(s: State, cx: Context, request: Request)
    requires
        request.caller() is Some,
        s.admin is Some,
        s.admin != request.caller(),
    ensures
        perform(s, cx, request).result == Err::<(), KoraError>(KoraError::NotAdmin),
        perform(s, cx, request).state == s,
{
}

/// Before it is initialized the contract serves no request but `initialize`.
pub proof fn nothing_before_initialize(s: State, cx: Context, request: Request)
    requires
        request.caller() is Some,
        s.admin is None,
    ensures
        perform(s, cx, request).result == Err::<(), KoraError>(KoraError::NotInitialized),
        perform(s, cx, request).state == s,
{
}

/// The caller's authorization comes first: before anything is stored, published
/// or called, and also where the request is refused.
pub proof fn authorization_comes_first(s: State, cx: Context, request: Request)
    ensures
        request.caller() matches Some(caller) ==> begins_with_authorization(
            perform(s, cx, request).log,
            caller,
        ),
{
}

/// The state that the steps of a log lead to.
pub open spec fn replayed(s: State, log: Seq<EffectView<StoreOp>>) -> State {
    replay(|t: State, op: StoreOp| model::apply(t, op), s, log, log.len() as int)
}

/// Asking for authorization and extending the caller's entry change nothing.
proof fn lemma_head_changes_nothing(s: State, caller: Address, tail: Seq<EffectView<StoreOp>>)
    ensures
        replayed(s, seq![Step::RequireAuth(caller)] + touch(s, caller) + tail) == replayed(s, tail),
{
    let f = |t: State, op: StoreOp| model::apply(t, op);
    let head = seq![Step::RequireAuth(caller)] + touch(s, caller);
    lemma_first_steps(f, s, head);
    lemma_replay_append(f, s, head, tail, tail.len() as int);
}

/// The storage steps that a request asks for lead to the state it ends in.
#[verifier::rlimit(40)]
pub proof fn steps_lead_to_the_state(s: State, cx: Context, request: Request)
    requires
        consistent(s),
    ensures
        replayed(s, perform(s, cx, request).log) == perform(s, cx, request).state,
{
    let f = |t: State, op: StoreOp| model::apply(t, op);
    let end = perform(s, cx, request);
    if end.result is Err || request is Initialize {
        lemma_first_steps(f, s, end.log);
    } else {
        let caller = request.caller()->0;
        let tail = match request {
            Request::Pause { .. } => seq![
                stored(StoreOp::SetGuard(true)),
                stored(StoreOp::SetPaused(true)),
                Step::Publish(events::protocol_paused_event(cx, caller)),
                stored(StoreOp::SetGuard(false)),
            ],
            Request::Unpause { .. } => seq![
                stored(StoreOp::SetGuard(true)),
                stored(StoreOp::SetPaused(false)),
                Step::Publish(events::protocol_unpaused_event(cx, caller)),
                stored(StoreOp::SetGuard(false)),
            ],
            Request::GrantRole { target, role, .. } => seq![
                stored(StoreOp::SetRole(target, role)),
                bump(DataKey::Role(target)),
                Step::Publish(events::role_granted_event(caller, target)),
            ],
            Request::RevokeRole { target, .. } => seq![
                stored(StoreOp::RemoveRole(target)),
                Step::Publish(events::role_revoked_event(caller, target)),
            ],
            Request::TransferAdmin { new_admin, .. } => seq![
                stored(StoreOp::SetAdmin(new_admin)),
                stored(StoreOp::SetRole(new_admin, Role::Admin)),
                bump(DataKey::Role(new_admin)),
                stored(StoreOp::RemoveRole(caller)),
                Step::Publish(events::admin_transferred_event(new_admin)),
            ],
            Request::Initialize { .. } => Seq::empty(),
        };
        assert(end.log == seq![Step::RequireAuth(caller)] + touch(s, caller) + tail);
        lemma_head_changes_nothing(s, caller, tail);
        assert(replayed(s, tail) == end.state) by {
            lemma_first_steps(f, s, tail);
        }
    }
}

/// A role entry that is written has its lifetime extended at once.
#[verifier::rlimit(40)]
pub proof fn written_roles_are_extended(s: State, cx: Context, request: Request, i: int)
    requires
        0 <= i < perform(s, cx, request).log.len(),
    ensures
        perform(s, cx, request).log[i] matches Step::Store(StoreOp::SetRole(address, _)) ==> {
            &&& i + 1 < perform(s, cx, request).log.len()
            &&& perform(s, cx, request).log[i + 1] == bump(DataKey::Role(address))
        },
{
    let log = perform(s, cx, request).log;
    if request.caller() is Some && perform(s, cx, request).result is Ok {
        let n = 1 + touch(s, request.caller()->0).len();
        match request {
            Request::GrantRole { target, .. } => {
                assert(log.len() == n + 3);
                assert(log[n as int + 1] == bump(DataKey::Role(target)));
            },
            Request::TransferAdmin { new_admin, .. } => {
                assert(log.len() == n + 5);
                assert(log[n as int + 2] == bump(DataKey::Role(new_admin)));
            },
            _ => {
                assert(log.len() <= n + 4);
            },
        }
    }
}

/// The role that was granted is the role the address has, in place of any role
/// it had; all other addresses keep theirs.
pub proof fn granted_role_is_held(
    s: State,
    admin: Address,
    target: Address,
    role: Role,
    other: Address,
)
    requires
        grant_role(s, admin, target, role).result is Ok,
    ensures
        ({
            let t = grant_role(s, admin, target, role).state;
            &&& role_of(t, target) == role
            &&& other != target ==> role_of(t, other) == role_of(s, other)
            &&& t.admin == s.admin && t.paused == s.paused
        }),
{
}

/// A role that was revoked is gone, its entry too; all other addresses keep
/// theirs. Revoking it again is refused.
pub proof fn revoked_role_is_gone(s: State, admin: Address, target: Address, other: Address)
    requires
        consistent(s),
        revoke_role(s, admin, target).result is Ok,
    ensures
        ({
            let t = revoke_role(s, admin, target).state;
            &&& role_of(t, target) == Role::NoRole
            &&& !t.roles.contains_key(target)
            &&& other != target ==> role_of(t, other) == role_of(s, other)
            &&& t.admin == s.admin && t.paused == s.paused
            &&& revoke_role(t, admin, target).result == Err::<(), KoraError>(
                KoraError::RoleNotAssigned,
            )
        }),
{
}

/// Granting a role to an address without one and revoking it again leads back
/// to where it began.
pub proof fn revoke_undoes_grant(s: State, admin: Address, target: Address, role: Role)
    requires
        !s.roles.contains_key(target),
        grant_role(s, admin, target, role).result is Ok,
    ensures
        ({
            let back = revoke_role(grant_role(s, admin, target, role).state, admin, target);
            back.result is Ok && back.state == s
        }),
{
    let granted = grant_role(s, admin, target, role).state;
    assert(granted.roles.remove(target) =~= s.roles);
}

/// The admin's own role is beyond `grant_role` and `revoke_role`, and so are
/// the roles `Admin` and `NoRole` for anybody.
pub proof fn admin_role_is_not_granted_or_revoked(
    s: State,
    admin: Address,
    target: Address,
    role: Role,
)
    requires
        s.admin == Some(admin),
    ensures
        grant_role(s, admin, admin, role).result == Err::<(), KoraError>(KoraError::Unauthorized),
        revoke_role(s, admin, admin).result == Err::<(), KoraError>(KoraError::Unauthorized),
        grant_role(s, admin, target, Role::Admin).result == Err::<(), KoraError>(
            KoraError::Unauthorized,
        ),
        grant_role(s, admin, target, Role::NoRole).result == Err::<(), KoraError>(
            KoraError::Unauthorized,
        ),
{
}

/// After a transfer the new admin has the role `Admin` and the old one has
/// none; nobody else's role and the pause flag are touched. Every further
/// request of the old admin is refused.
pub proof fn transfer_hands_everything_over(
    s: State,
    cx: Context,
    current_admin: Address,
    new_admin: Address,
    other: Address,
    request: Request,
)
    requires
        transfer_admin(s, current_admin, new_admin).result is Ok,
        request.caller() == Some(current_admin),
    ensures
        ({
            let t = transfer_admin(s, current_admin, new_admin).state;
            &&& model::get_admin(t) == Ok::<Address, KoraError>(new_admin)
            &&& role_of(t, new_admin) == Role::Admin
            &&& role_of(t, current_admin) == Role::NoRole
            &&& !t.roles.contains_key(current_admin)
            &&& other != current_admin && other != new_admin ==> role_of(t, other) == role_of(
                s,
                other,
            )
            &&& t.paused == s.paused
            &&& perform(t, cx, request).result == Err::<(), KoraError>(KoraError::NotAdmin)
            &&& perform(t, cx, request).state == t
        }),
{
}

/// A transfer succeeds where the admin asks for it and the new admin is another
/// address without a role of its own; a role that stands in the way can be
/// revoked first.
pub proof fn transfer_after_revoke(s: State, admin: Address, new_admin: Address)
    requires
        consistent(s),
        s.admin == Some(admin),
        admin != new_admin,
    ensures
        ({
            let held = assigned_role(s, new_admin);
            let freed = revoke_role(s, admin, new_admin).state;
            &&& held == Role::NoRole ==> transfer_admin(s, admin, new_admin).result is Ok
            &&& held != Role::NoRole ==> {
                &&& transfer_admin(s, admin, new_admin).result == Err::<(), KoraError>(
                    KoraError::Unauthorized,
                )
                &&& revoke_role(s, admin, new_admin).result is Ok
                &&& transfer_admin(freed, admin, new_admin).result is Ok
            }
        }),
{
}

/// The contract can be handed over and back: the first admin is the admin
/// again.
pub proof fn transfer_and_back(s: State, a: Address, b: Address, other: Address)
    requires
        consistent(s),
        transfer_admin(s, a, b).result is Ok,
    ensures
        ({
            let back = transfer_admin(transfer_admin(s, a, b).state, b, a);
            &&& back.result is Ok
            &&& back.state.admin == s.admin
            &&& back.state.paused == s.paused
            &&& role_of(back.state, other) == role_of(s, other)
        }),
{
}

/// Pausing and unpausing are opposites: neither can be done twice in a row,
/// one after the other leads back to where it began, and roles and admin are
/// not touched.
pub proof fn unpause_undoes_pause(s: State, cx: Context, later: Context, admin: Address)
    requires
        consistent(s),
        s.admin == Some(admin),
        !s.paused,
    ensures
        pause(s, cx, admin).result is Ok,
        pause(s, cx, admin).state == (State { paused: true, ..s }),
        unpause(s, cx, admin).result == Err::<(), KoraError>(KoraError::NotPaused),
        pause(pause(s, cx, admin).state, later, admin).result == Err::<(), KoraError>(
            KoraError::AlreadyPaused,
        ),
        unpause(pause(s, cx, admin).state, later, admin).result is Ok,
        unpause(pause(s, cx, admin).state, later, admin).state == s,
{
}

/// The pause flag changes only when the admin pauses or unpauses, or with
/// `initialize`.
pub proof fn pause_flag_changes_only_on_request(s: State, cx: Context, request: Request)
    ensures
        perform(s, cx, request).state.paused != s.paused ==> request is Initialize
            || request is Pause || request is Unpause,
{
}

/// Roles can be managed while the protocol is paused: a request about roles
/// ends the same way, and with the same roles, whether or not it is.
pub proof fn pause_does_not_touch_roles(s: State, cx: Context, request: Request)
    requires
        request is GrantRole || request is RevokeRole || request is TransferAdmin,
    ensures
        ({
            let end = perform(s, cx, request);
            let paused = perform(State { paused: true, ..s }, cx, request);
            &&& paused.result == end.result
            &&& paused.state == (State { paused: true, ..end.state })
        }),
{
}

/// A request cannot be entered again from within a pause or an unpause: while
/// one is under way both are refused.
pub proof fn no_reentry(s: State, cx: Context, admin: Address)
    requires
        s.guard,
    ensures
        pause(s, cx, admin).result is Err,
        unpause(s, cx, admin).result is Err,
        s.admin == Some(admin) && !s.paused ==> pause(s, cx, admin).result == Err::<(), KoraError>(
            KoraError::Reentrancy,
        ),
        s.admin == Some(admin) && s.paused ==> unpause(s, cx, admin).result == Err::<
            (),
            KoraError,
        >(KoraError::Reentrancy),
{
}

/// Whether two states agree on every entry that a request names.
pub open spec fn agree(s: State, t: State, request: Request) -> bool {
    &&& s.admin == t.admin && s.paused == t.paused && s.guard == t.guard
    &&& match request {
        Request::Initialize { .. } => true,
        Request::Pause { admin } => s.roles.get(admin) == t.roles.get(admin),
        Request::Unpause { admin } => s.roles.get(admin) == t.roles.get(admin),
        Request::GrantRole { admin, target, .. } => s.roles.get(admin) == t.roles.get(admin)
            && s.roles.get(target) == t.roles.get(target),
        Request::RevokeRole { admin, target } => s.roles.get(admin) == t.roles.get(admin)
            && s.roles.get(target) == t.roles.get(target),
        Request::TransferAdmin { current_admin, new_admin } => s.roles.get(current_admin)
            == t.roles.get(current_admin) && s.roles.get(new_admin) == t.roles.get(new_admin),
    }
}

/// A request depends on nothing but the entries it names: where these are the
/// same it ends the same way and asks for the same steps.
pub proof fn only_named_entries_matter(s: State, t: State, cx: Context, request: Request)
    requires
        agree(s, t, request),
    ensures
        perform(s, cx, request).result == perform(t, cx, request).result,
        perform(s, cx, request).log == perform(t, cx, request).log,
{
}

} // verus!
