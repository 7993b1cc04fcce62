//! The contract as a mathematical state machine.

use vstd::prelude::*;

use crate::access_control::{
    AccessControlContract, DataKey, Role, StoreOp, PERSISTENT_TTL_BUMP, PERSISTENT_TTL_THRESHOLD,
};
use crate::shared::errors::KoraError;
use crate::shared::events;
use crate::shared::host::{refused, Context, EffectView, Outcome, Step};
use crate::shared::types::Address;

verus! {

/// What the contract stores.
#[verifier::ext_equal]
pub struct State {
    pub admin: Option<Address>,
    pub paused: bool,
    pub guard: bool,
    pub roles: Map<Address, Role>,
}

impl View for AccessControlContract {
    type V = State;

    open spec fn view(&self) -> State {
        State {
            admin: self.admin,
            paused: self.paused,
            guard: self.guard.entered,
            roles: self.roles@,
        }
    }
}

pub open spec fn deployed() -> State {
    State { admin: None, paused: false, guard: false, roles: Map::empty() }
}

/// What a storage step does to the state.
pub open spec fn apply(s: State, op: StoreOp) -> State {
    match op {
        StoreOp::SetAdmin(admin) => State { admin: Some(admin), ..s },
        StoreOp::SetPaused(paused) => State { paused, ..s },
        StoreOp::SetGuard(entered) => State { guard: entered, ..s },
        StoreOp::SetRole(address, role) => State { roles: s.roles.insert(address, role), ..s },
        StoreOp::RemoveRole(address) => State { roles: s.roles.remove(address), ..s },
        StoreOp::ExtendTtl { .. } => s,
    }
}

pub open spec fn stored(op: StoreOp) -> EffectView<StoreOp> {
    Step::Store(op)
}

/// The step that extends the lifetime of an entry.
pub open spec fn bump(key: DataKey) -> EffectView<StoreOp> {
    stored(
        StoreOp::ExtendTtl {
            key,
            threshold: PERSISTENT_TTL_THRESHOLD,
            extend_to: PERSISTENT_TTL_BUMP,
        },
    )
}

/// Extends the lifetime of the address's role entry, where it has one.
pub open spec fn touch(s: State, address: Address) -> Seq<EffectView<StoreOp>> {
    if s.roles.contains_key(address) {
        seq![bump(DataKey::Role(address))]
    } else {
        Seq::empty()
    }
}

/// The role in the address's entry.
pub open spec fn assigned_role(s: State, address: Address) -> Role {
    match s.roles.get(address) {
        Some(role) => role,
        None => Role::NoRole,
    }
}

/// The role that an address has: the one in its entry; without an entry, the
/// admin is still the admin.
pub open spec fn role_of(s: State, address: Address) -> Role {
    match s.roles.get(address) {
        Some(role) => role,
        None => if s.admin == Some(address) {
            Role::Admin
        } else {
            Role::NoRole
        },
    }
}

pub open spec fn get_admin(s: State) -> Result<Address, KoraError> {
    match s.admin {
        Some(admin) => Ok(admin),
        None => Err(KoraError::NotInitialized),
    }
}

/// Why a request that only the admin may make is refused to the caller.
pub open spec fn admin_error(s: State, caller: Address) -> Option<KoraError> {
    if s.admin is None {
        Some(KoraError::NotInitialized)
    } else if s.admin != Some(caller) {
        Some(KoraError::NotAdmin)
    } else {
        None
    }
}

pub open spec fn initialize(s: State, admin: Address) -> Outcome<State, StoreOp, ()> {
    if s.admin is Some {
        Outcome { result: Err(KoraError::AlreadyInitialized), state: s, log: Seq::empty() }
    } else {
        Outcome {
            result: Ok(()),
            state: State {
                admin: Some(admin),
                paused: false,
                roles: s.roles.insert(admin, Role::Admin),
                ..s
            },
            log: seq![
                stored(StoreOp::SetAdmin(admin)),
                stored(StoreOp::SetPaused(false)),
                stored(StoreOp::SetRole(admin, Role::Admin)),
                bump(DataKey::Role(admin)),
            ],
        }
    }
}

/// Why pausing is refused.
pub open spec fn pause_error(s: State, admin: Address) -> Option<KoraError> {
    if admin_error(s, admin) is Some {
        admin_error(s, admin)
    } else if s.paused {
        Some(KoraError::AlreadyPaused)
    } else if s.guard {
        Some(KoraError::Reentrancy)
    } else {
        None
    }
}

pub open spec fn pause(s: State, cx: Context, admin: Address) -> Outcome<State, StoreOp, ()> {
    match pause_error(s, admin) {
        Some(e) => refused(s, admin, e),
        None => Outcome {
            result: Ok(()),
            state: State { paused: true, ..s },
            log: seq![Step::RequireAuth(admin)] + touch(s, admin) + seq![
                stored(StoreOp::SetGuard(true)),
                stored(StoreOp::SetPaused(true)),
                Step::Publish(events::protocol_paused_event(cx, admin)),
                stored(StoreOp::SetGuard(false)),
            ],
        },
    }
}

/// Why unpausing is refused.
pub open spec fn unpause_error(s: State, admin: Address) -> Option<KoraError> {
    if admin_error(s, admin) is Some {
        admin_error(s, admin)
    } else if !s.paused {
        Some(KoraError::NotPaused)
    } else if s.guard {
        Some(KoraError::Reentrancy)
    } else {
        None
    }
}

pub open spec fn unpause(s: State, cx: Context, admin: Address) -> Outcome<State, StoreOp, ()> {
    match unpause_error(s, admin) {
        Some(e) => refused(s, admin, e),
        None => Outcome {
            result: Ok(()),
            state: State { paused: false, ..s },
            log: seq![Step::RequireAuth(admin)] + touch(s, admin) + seq![
                stored(StoreOp::SetGuard(true)),
                stored(StoreOp::SetPaused(false)),
                Step::Publish(events::protocol_unpaused_event(cx, admin)),
                stored(StoreOp::SetGuard(false)),
            ],
        },
    }
}

/// Why granting a role is refused.
pub open spec fn grant_role_error(
    s: State,
    admin: Address,
    target: Address,
    role: Role,
) -> Option<KoraError> {
    if admin_error(s, admin) is Some {
        admin_error(s, admin)
    } else if role == Role::Admin || role == Role::NoRole || target == admin {
        Some(KoraError::Unauthorized)
    } else {
        None
    }
}

pub open spec fn grant_role(s: State, admin: Address, target: Address, role: Role) -> Outcome<
    State,
    StoreOp,
    (),
> {
    match grant_role_error(s, admin, target, role) {
        Some(e) => refused(s, admin, e),
        None => Outcome {
            result: Ok(()),
            state: State { roles: s.roles.insert(target, role), ..s },
            log: seq![Step::RequireAuth(admin)] + touch(s, admin) + seq![
                stored(StoreOp::SetRole(target, role)),
                bump(DataKey::Role(target)),
                Step::Publish(events::role_granted_event(admin, target)),
            ],
        },
    }
}

/// Why revoking a role is refused.
pub open spec fn revoke_role_error(s: State, admin: Address, target: Address) -> Option<KoraError> {
    if admin_error(s, admin) is Some {
        admin_error(s, admin)
    } else if assigned_role(s, target) == Role::Admin || target == admin {
        Some(KoraError::Unauthorized)
    } else if assigned_role(s, target) == Role::NoRole {
        Some(KoraError::RoleNotAssigned)
    } else {
        None
    }
}

pub open spec fn revoke_role(s: State, admin: Address, target: Address) -> Outcome<
    State,
    StoreOp,
    (),
> {
    match revoke_role_error(s, admin, target) {
        Some(e) => refused(s, admin, e),
        None => Outcome {
            result: Ok(()),
            state: State { roles: s.roles.remove(target), ..s },
            log: seq![Step::RequireAuth(admin)] + touch(s, admin) + seq![
                stored(StoreOp::RemoveRole(target)),
                Step::Publish(events::role_revoked_event(admin, target)),
            ],
        },
    }
}

/// Why transferring the admin role is refused.
pub open spec fn transfer_admin_error(
    s: State,
    current_admin: Address,
    new_admin: Address,
) -> Option<KoraError> {
    if admin_error(s, current_admin) is Some {
        admin_error(s, current_admin)
    } else if current_admin == new_admin {
        Some(KoraError::InvalidAddress)
    } else if assigned_role(s, new_admin) == Role::Operator || assigned_role(s, new_admin)
        == Role::Verifier {
        Some(KoraError::Unauthorized)
    } else {
        None
    }
}

pub open spec fn transfer_admin(
    s: State,
    current_admin: Address,
    new_admin: Address,
) -> Outcome<State, StoreOp, ()> {
    match transfer_admin_error(s, current_admin, new_admin) {
        Some(e) => refused(s, current_admin, e),
        None => Outcome {
            result: Ok(()),
            state: State {
                admin: Some(new_admin),
                roles: s.roles.insert(new_admin, Role::Admin).remove(current_admin),
                ..s
            },
            log: seq![Step::RequireAuth(current_admin)] + touch(s, current_admin) + seq![
                stored(StoreOp::SetAdmin(new_admin)),
                stored(StoreOp::SetRole(new_admin, Role::Admin)),
                bump(DataKey::Role(new_admin)),
                stored(StoreOp::RemoveRole(current_admin)),
                Step::Publish(events::admin_transferred_event(new_admin)),
            ],
        },
    }
}

} // verus!
