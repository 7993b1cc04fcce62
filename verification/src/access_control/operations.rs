//! What each operation promises, in terms of its inputs: when it succeeds, why
//! it is refused, what it changes and what it asks of the host.

use vstd::prelude::*;

use crate::access_control::model::{
    assigned_role, deployed, get_admin, grant_role, initialize, pause, revoke_role, role_of, touch,
    transfer_admin, unpause, State,
};
use crate::access_control::{AccessControlContract, DataKey, Role, StoreOp};
use crate::shared::errors::KoraError;
use crate::shared::events::{EventView, Shape, Topic, Value};
use crate::shared::host::{Context, Durability, EffectView, Step};
use crate::shared::types::Address;

verus! {

/// The state is what is stored.
pub proof fn state_is_what_is_stored(contract: AccessControlContract)
    ensures
        contract@.admin == contract.admin,
        contract@.paused == contract.paused,
        contract@.guard == contract.guard.entered,
        contract@.roles == contract.roles@,
{
}

/// A change to the storage is told as it was made.
pub proof fn change_is_told(op: StoreOp)
    ensures
        op@ == op,
{
}

/// Nobody is admin or has a role at first, and nothing is paused.
pub proof fn nothing_at_first(address: Address)
    ensures
        ({
            let s = deployed();
            s.admin is None && !s.paused && !s.guard && !s.roles.contains_key(address)
        }),
{
}

/// Roles live in entries of their own, all else with the contract instance.
pub proof fn where_entries_live(key: DataKey)
    ensures
        key.spec_durability() == Durability::Persistent <==> key is Role,
{
}

/// Whether a log asks for one authorization and nothing else.
pub open spec fn asks_only(log: Seq<EffectView<StoreOp>>, who: Address) -> bool {
    log.len() == 1 && log[0] == Step::<StoreOp, EventView>::RequireAuth(who)
}

/// Whether a step extends the lifetime of an address's role entry to about
/// thirty days.
pub open spec fn extends(step: EffectView<StoreOp>, address: Address) -> bool {
    step == Step::<StoreOp, EventView>::Store(
        StoreOp::ExtendTtl {
            key: DataKey::Role(address),
            threshold: 518_400,
            extend_to: 518_400,
        },
    )
}

/// Where the steps of an admin's request go on, after the admin's authorization
/// and, where the admin has a role entry, the extension of its lifetime.
pub open spec fn after_the_admin(s: State, admin: Address) -> int {
    if s.roles.contains_key(admin) {
        2
    } else {
        1
    }
}

/// Whether a log begins as that of every admin's request does.
pub open spec fn begins_for_the_admin(
    s: State,
    log: Seq<EffectView<StoreOp>>,
    admin: Address,
) -> bool {
    &&& log[0] == Step::<StoreOp, EventView>::RequireAuth(admin)
    &&& s.roles.contains_key(admin) ==> extends(log[1], admin)
}

/// Initializing succeeds exactly where nobody was the admin yet. It makes the
/// address the admin, also by role, and starts unpaused.
pub proof fn initializing(s: State, admin: Address, other: Address)
    ensures
        ({
            let end = initialize(s, admin);
            &&& end.result is Ok <==> s.admin is None
            &&& s.admin is Some ==> end.result == Err::<(), KoraError>(
                KoraError::AlreadyInitialized,
            ) && end.state == s && end.log.len() == 0
            &&& end.result is Ok ==> {
                &&& end.state.admin == Some(admin) && !end.state.paused
                &&& end.state.guard == s.guard
                &&& end.state.roles.contains_key(admin) && end.state.roles[admin] == Role::Admin
                &&& other != admin ==> end.state.roles.contains_key(other)
                    == s.roles.contains_key(other) && end.state.roles[other] == s.roles[other]
                &&& end.log.len() == 4
                &&& end.log[0] == Step::<StoreOp, EventView>::Store(StoreOp::SetAdmin(admin))
                &&& end.log[1] == Step::<StoreOp, EventView>::Store(StoreOp::SetPaused(false))
                &&& end.log[2] == Step::<StoreOp, EventView>::Store(
                    StoreOp::SetRole(admin, Role::Admin),
                )
                &&& extends(end.log[3], admin)
            }
        }),
{
}

/// Pausing succeeds exactly when the admin asks, the protocol is not paused and
/// nothing is under way. It sets the flag and nothing else.
pub proof fn pausing(s: State, cx: Context, admin: Address)
    ensures
        ({
            let end = pause(s, cx, admin);
            let asked = s.admin == Some(admin);
            let k = after_the_admin(s, admin);
            &&& end.result is Ok <==> asked && !s.paused && !s.guard
            &&& s.admin is None ==> end.result == Err::<(), KoraError>(KoraError::NotInitialized)
            &&& s.admin is Some && !asked ==> end.result == Err::<(), KoraError>(
                KoraError::NotAdmin,
            )
            &&& asked && s.paused ==> end.result == Err::<(), KoraError>(KoraError::AlreadyPaused)
            &&& asked && !s.paused && s.guard ==> end.result == Err::<(), KoraError>(
                KoraError::Reentrancy,
            )
            &&& end.result is Err ==> end.state == s && asks_only(end.log, admin)
            &&& end.result is Ok ==> {
                &&& end.state.paused && end.state.admin == s.admin && end.state.guard == s.guard
                &&& end.state.roles == s.roles
                &&& end.log.len() == k + 4
                &&& begins_for_the_admin(s, end.log, admin)
                &&& end.log[k] == Step::<StoreOp, EventView>::Store(StoreOp::SetGuard(true))
                &&& end.log[k + 1] == Step::<StoreOp, EventView>::Store(StoreOp::SetPaused(true))
                &&& end.log[k + 2] == Step::<StoreOp, EventView>::Publish(
                    EventView {
                        topic: Topic::Paused,
                        shape: Shape::Tuple,
                        data: seq![Value::Address(admin), Value::U64(cx.timestamp)],
                    },
                )
                &&& end.log[k + 3] == Step::<StoreOp, EventView>::Store(StoreOp::SetGuard(false))
            }
        }),
{
}

/// Unpausing succeeds exactly when the admin asks, the protocol is paused and
/// nothing is under way. It clears the flag and nothing else.
pub proof fn unpausing(s: State, cx: Context, admin: Address)
    ensures
        ({
            let end = unpause(s, cx, admin);
            let asked = s.admin == Some(admin);
            let k = after_the_admin(s, admin);
            &&& end.result is Ok <==> asked && s.paused && !s.guard
            &&& s.admin is None ==> end.result == Err::<(), KoraError>(KoraError::NotInitialized)
            &&& s.admin is Some && !asked ==> end.result == Err::<(), KoraError>(
                KoraError::NotAdmin,
            )
            &&& asked && !s.paused ==> end.result == Err::<(), KoraError>(KoraError::NotPaused)
            &&& asked && s.paused && s.guard ==> end.result == Err::<(), KoraError>(
                KoraError::Reentrancy,
            )
            &&& end.result is Err ==> end.state == s && asks_only(end.log, admin)
            &&& end.result is Ok ==> {
                &&& !end.state.paused && end.state.admin == s.admin && end.state.guard == s.guard
                &&& end.state.roles == s.roles
                &&& end.log.len() == k + 4
                &&& begins_for_the_admin(s, end.log, admin)
                &&& end.log[k] == Step::<StoreOp, EventView>::Store(StoreOp::SetGuard(true))
                &&& end.log[k + 1] == Step::<StoreOp, EventView>::Store(StoreOp::SetPaused(false))
                &&& end.log[k + 2] == Step::<StoreOp, EventView>::Publish(
                    EventView {
                        topic: Topic::Unpaused,
                        shape: Shape::Tuple,
                        data: seq![Value::Address(admin), Value::U64(cx.timestamp)],
                    },
                )
                &&& end.log[k + 3] == Step::<StoreOp, EventView>::Store(StoreOp::SetGuard(false))
            }
        }),
{
}

/// A role is granted exactly when the admin asks, for somebody else, and the
/// role is that of an operator or a verifier, whatever role the target had.
/// Nobody else's role changes.
pub proof fn granting(s: State, admin: Address, target: Address, role: Role, other: Address)
    ensures
        ({
            let end = grant_role(s, admin, target, role);
            let asked = s.admin == Some(admin);
            let proper = (role == Role::Operator || role == Role::Verifier) && target != admin;
            let k = after_the_admin(s, admin);
            &&& end.result is Ok <==> asked && proper
            &&& s.admin is None ==> end.result == Err::<(), KoraError>(KoraError::NotInitialized)
            &&& s.admin is Some && !asked ==> end.result == Err::<(), KoraError>(
                KoraError::NotAdmin,
            )
            &&& asked && !proper ==> end.result == Err::<(), KoraError>(KoraError::Unauthorized)
            &&& end.result is Err ==> end.state == s && asks_only(end.log, admin)
            &&& end.result is Ok ==> {
                &&& end.state.roles.contains_key(target) && end.state.roles[target] == role
                &&& other != target ==> end.state.roles.contains_key(other)
                    == s.roles.contains_key(other) && end.state.roles[other] == s.roles[other]
                &&& end.state.admin == s.admin && end.state.paused == s.paused
                &&& end.state.guard == s.guard
                &&& end.log.len() == k + 3
                &&& begins_for_the_admin(s, end.log, admin)
                &&& end.log[k] == Step::<StoreOp, EventView>::Store(StoreOp::SetRole(target, role))
                &&& extends(end.log[k + 1], target)
                &&& end.log[k + 2] == Step::<StoreOp, EventView>::Publish(
                    EventView {
                        topic: Topic::RolGrt,
                        shape: Shape::Tuple,
                        data: seq![Value::Address(admin), Value::Address(target)],
                    },
                )
            }
        }),
{
}

/// A role is revoked exactly when the admin asks, for somebody else who has an
/// entry as an operator or a verifier. The entry is gone and nobody else's role
/// changes.
pub proof fn revoking(s: State, admin: Address, target: Address, other: Address)
    ensures
        ({
            let end = revoke_role(s, admin, target);
            let asked = s.admin == Some(admin);
            let has = s.roles.contains_key(target);
            let protected = target == admin || (has && s.roles[target] == Role::Admin);
            let assigned = has && s.roles[target] != Role::NoRole;
            let k = after_the_admin(s, admin);
            &&& end.result is Ok <==> asked && target != admin && has && (s.roles[target]
                == Role::Operator || s.roles[target] == Role::Verifier)
            &&& s.admin is None ==> end.result == Err::<(), KoraError>(KoraError::NotInitialized)
            &&& s.admin is Some && !asked ==> end.result == Err::<(), KoraError>(
                KoraError::NotAdmin,
            )
            &&& asked && protected ==> end.result == Err::<(), KoraError>(KoraError::Unauthorized)
            &&& asked && !protected && !assigned ==> end.result == Err::<(), KoraError>(
                KoraError::RoleNotAssigned,
            )
            &&& end.result is Err ==> end.state == s && asks_only(end.log, admin)
            &&& end.result is Ok ==> {
                &&& !end.state.roles.contains_key(target)
                &&& other != target ==> end.state.roles.contains_key(other)
                    == s.roles.contains_key(other) && (s.roles.contains_key(other)
                    ==> end.state.roles[other] == s.roles[other])
                &&& end.state.admin == s.admin && end.state.paused == s.paused
                &&& end.state.guard == s.guard
                &&& end.log.len() == k + 2
                &&& begins_for_the_admin(s, end.log, admin)
                &&& end.log[k] == Step::<StoreOp, EventView>::Store(StoreOp::RemoveRole(target))
                &&& end.log[k + 1] == Step::<StoreOp, EventView>::Publish(
                    EventView {
                        topic: Topic::RolRvk,
                        shape: Shape::Tuple,
                        data: seq![Value::Address(admin), Value::Address(target)],
                    },
                )
            }
        }),
{
}

/// The protocol is handed over exactly when the admin asks and names another
/// address that is neither operator nor verifier. The new admin is so also by
/// role, the old one has no entry left, and nobody else's role changes.
pub proof fn handing_over(s: State, current_admin: Address, new_admin: Address, other: Address)
    ensures
        ({
            let end = transfer_admin(s, current_admin, new_admin);
            let asked = s.admin == Some(current_admin);
            let serving = s.roles.contains_key(new_admin) && (s.roles[new_admin] == Role::Operator
                || s.roles[new_admin] == Role::Verifier);
            let k = after_the_admin(s, current_admin);
            &&& end.result is Ok <==> asked && current_admin != new_admin && !serving
            &&& s.admin is None ==> end.result == Err::<(), KoraError>(KoraError::NotInitialized)
            &&& s.admin is Some && !asked ==> end.result == Err::<(), KoraError>(
                KoraError::NotAdmin,
            )
            &&& asked && current_admin == new_admin ==> end.result == Err::<(), KoraError>(
                KoraError::InvalidAddress,
            )
            &&& asked && current_admin != new_admin && serving ==> end.result == Err::<
                (),
                KoraError,
            >(KoraError::Unauthorized)
            &&& end.result is Err ==> end.state == s && asks_only(end.log, current_admin)
            &&& end.result is Ok ==> {
                &&& end.state.admin == Some(new_admin)
                &&& end.state.roles.contains_key(new_admin)
                &&& end.state.roles[new_admin] == Role::Admin
                &&& !end.state.roles.contains_key(current_admin)
                &&& other != new_admin && other != current_admin ==> end.state.roles.contains_key(
                    other,
                ) == s.roles.contains_key(other) && (s.roles.contains_key(other)
                    ==> end.state.roles[other] == s.roles[other])
                &&& end.state.paused == s.paused && end.state.guard == s.guard
                &&& end.log.len() == k + 5
                &&& begins_for_the_admin(s, end.log, current_admin)
                &&& end.log[k] == Step::<StoreOp, EventView>::Store(StoreOp::SetAdmin(new_admin))
                &&& end.log[k + 1] == Step::<StoreOp, EventView>::Store(
                    StoreOp::SetRole(new_admin, Role::Admin),
                )
                &&& extends(end.log[k + 2], new_admin)
                &&& end.log[k + 3] == Step::<StoreOp, EventView>::Store(
                    StoreOp::RemoveRole(current_admin),
                )
                &&& end.log[k + 4] == Step::<StoreOp, EventView>::Publish(
                    EventView {
                        topic: Topic::AdmTrf,
                        shape: Shape::Bare,
                        data: seq![Value::Address(new_admin)],
                    },
                )
            }
        }),
{
}

/// The role of an address is the one in its entry, and reading it extends the
/// entry's lifetime. Without an entry only the admin has a role, and there is
/// nothing to extend. By entry alone, no entry is no role.
pub proof fn reading(s: State, address: Address)
    ensures
        s.roles.contains_key(address) ==> {
            &&& role_of(s, address) == s.roles[address]
            &&& assigned_role(s, address) == s.roles[address]
            &&& touch(s, address).len() == 1 && extends(touch(s, address)[0], address)
        },
        !s.roles.contains_key(address) ==> {
            &&& s.admin == Some(address) ==> role_of(s, address) == Role::Admin
            &&& s.admin != Some(address) ==> role_of(s, address) == Role::NoRole
            &&& assigned_role(s, address) == Role::NoRole
            &&& touch(s, address).len() == 0
        },
        s.admin matches Some(admin) ==> get_admin(s) == Ok::<Address, KoraError>(admin),
        s.admin is None ==> get_admin(s) == Err::<Address, KoraError>(KoraError::NotInitialized),
{
}

} // verus!
