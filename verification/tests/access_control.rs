//! Roles, the admin and the pause flag.

use std::cell::{Cell, RefCell};

use kora::access_control::{AccessControlContract, DataKey, Role, StoreOp};
use kora::shared::errors::KoraError;
use kora::shared::events::{Event, Shape, Topic, Value};
use kora::shared::host::{Context, Durability, Effect, Invocation, Step};
use kora::shared::types::{Address, AddressKind};

/// Hands out addresses that were not used before.
struct Ids {
    next: Cell<u128>,
}

impl Ids {
    fn new() -> Ids {
        Ids { next: Cell::new(1) }
    }

    fn generate(&self) -> Address {
        let n = self.next.get();
        self.next.set(n + 1);
        Address { kind: AddressKind::Account, hi: 7, lo: n }
    }
}

/// A deployed contract. Each call is one invocation; what the last one asked of
/// the host is kept.
struct Client {
    contract: RefCell<AccessControlContract>,
    steps: RefCell<Vec<Effect<StoreOp>>>,
}

impl Client {
    fn invoke<T>(
        &self,
        f: impl FnOnce(&mut AccessControlContract, &mut Invocation<StoreOp>) -> T,
    ) -> T {
        let mut env = Invocation::new(context());
        let result = f(&mut self.contract.borrow_mut(), &mut env);
        *self.steps.borrow_mut() = env.effects;
        result
    }

    /// Whose authorization the last invocation asked for.
    fn authorizations(&self) -> Vec<Address> {
        let mut who = Vec::new();
        for step in self.steps.borrow().iter() {
            if let Step::RequireAuth(address) = step {
                who.push(*address);
            }
        }
        who
    }

    fn steps(&self) -> Vec<Effect<StoreOp>> {
        self.steps.borrow().clone()
    }

    fn try_initialize(&self, admin: &Address) -> Result<(), KoraError> {
        self.invoke(|c, env| c.initialize(env, *admin))
    }

    fn initialize(&self, admin: &Address) {
        self.try_initialize(admin).unwrap()
    }

    fn try_pause(&self, admin: &Address) -> Result<(), KoraError> {
        self.invoke(|c, env| c.pause(env, *admin))
    }

    fn pause(&self, admin: &Address) {
        self.try_pause(admin).unwrap()
    }

    fn try_unpause(&self, admin: &Address) -> Result<(), KoraError> {
        self.invoke(|c, env| c.unpause(env, *admin))
    }

    fn unpause(&self, admin: &Address) {
        self.try_unpause(admin).unwrap()
    }

    fn try_grant_role(
        &self,
        admin: &Address,
        target: &Address,
        role: &Role,
    ) -> Result<(), KoraError> {
        self.invoke(|c, env| c.grant_role(env, *admin, *target, *role))
    }

    fn grant_role(&self, admin: &Address, target: &Address, role: &Role) {
        self.try_grant_role(admin, target, role).unwrap()
    }

    fn try_revoke_role(&self, admin: &Address, target: &Address) -> Result<(), KoraError> {
        self.invoke(|c, env| c.revoke_role(env, *admin, *target))
    }

    fn revoke_role(&self, admin: &Address, target: &Address) {
        self.try_revoke_role(admin, target).unwrap()
    }

    fn try_transfer_admin(
        &self,
        current_admin: &Address,
        new_admin: &Address,
    ) -> Result<(), KoraError> {
        self.invoke(|c, env| c.transfer_admin(env, *current_admin, *new_admin))
    }

    fn transfer_admin(&self, current_admin: &Address, new_admin: &Address) {
        self.try_transfer_admin(current_admin, new_admin).unwrap()
    }

    fn is_paused(&self) -> bool {
        self.contract.borrow().is_paused()
    }

    fn get_role(&self, address: &Address) -> Role {
        self.invoke(|c, env| c.get_role(env, *address))
    }

    fn has_role(&self, address: &Address, role: &Role) -> bool {
        self.contract.borrow().has_role(*address, *role)
    }

    fn try_get_admin(&self) -> Result<Address, KoraError> {
        self.contract.borrow().get_admin()
    }

    fn get_admin(&self) -> Address {
        self.try_get_admin().unwrap()
    }
}

fn context() -> Context {
    Context {
        timestamp: 1_700_000_000,
        sequence: 1,
        contract: Address { kind: AddressKind::Contract, hi: 1, lo: 1 },
        protocol_paused: false,
    }
}

/// A contract that is not initialized.
fn deploy_uninit() -> (Ids, Client) {
    let client = Client {
        contract: RefCell::new(AccessControlContract::new()),
        steps: RefCell::new(Vec::new()),
    };
    (Ids::new(), client)
}

/// A contract that is initialized.
fn setup() -> (Ids, Address, Client) {
    let (env, client) = deploy_uninit();
    let admin = env.generate();
    client.initialize(&admin);
    (env, admin, client)
}

#[test]
fn test_initialize_success() {
    let (env, client) = deploy_uninit();
    let admin = env.generate();
    assert!(client.try_initialize(&admin).is_ok());
    assert_eq!(client.get_admin(), admin);
    assert_eq!(client.get_role(&admin), Role::Admin);
    assert!(!client.is_paused());
}

#[test]
fn test_initialize_already_initialized() {
    let (_, admin, client) = setup();
    assert!(client.try_initialize(&admin).is_err());
}

#[test]
fn test_pause_unpause() {
    let (_, admin, client) = setup();
    assert!(!client.is_paused());
    client.pause(&admin);
    assert!(client.is_paused());
    client.unpause(&admin);
    assert!(!client.is_paused());
}

#[test]
fn test_pause_already_paused() {
    let (_, admin, client) = setup();
    client.pause(&admin);
    // Second pause must fail with AlreadyPaused, not silently succeed
    let result = client.try_pause(&admin);
    assert!(result.is_err());
}

#[test]
fn test_unpause_when_not_paused() {
    let (_, admin, client) = setup();
    // Unpause on a non-paused contract must fail with NotPaused
    let result = client.try_unpause(&admin);
    assert!(result.is_err());
}

#[test]
fn test_non_admin_cannot_pause() {
    let (env, _, client) = setup();
    let stranger = env.generate();
    assert!(client.try_pause(&stranger).is_err());
}

#[test]
fn test_non_admin_cannot_unpause() {
    let (env, admin, client) = setup();
    client.pause(&admin);
    let stranger = env.generate();
    assert!(client.try_unpause(&stranger).is_err());
}

#[test]
fn test_pause_unpause_cycle_multiple_times() {
    let (_, admin, client) = setup();
    for _ in 0..3 {
        client.pause(&admin);
        assert!(client.is_paused());
        client.unpause(&admin);
        assert!(!client.is_paused());
    }
}

#[test]
fn test_grant_role_operator() {
    let (env, admin, client) = setup();
    let operator = env.generate();
    client.grant_role(&admin, &operator, &Role::Operator);
    assert_eq!(client.get_role(&operator), Role::Operator);
}

#[test]
fn test_grant_role_verifier() {
    let (env, admin, client) = setup();
    let verifier = env.generate();
    client.grant_role(&admin, &verifier, &Role::Verifier);
    assert_eq!(client.get_role(&verifier), Role::Verifier);
}

#[test]
fn test_grant_role_admin_forbidden() {
    // Cannot grant Role::Admin - must use transfer_admin
    let (env, admin, client) = setup();
    let target = env.generate();
    assert!(client.try_grant_role(&admin, &target, &Role::Admin).is_err());
}

#[test]
fn test_grant_role_none_forbidden() {
    // Cannot grant Role::NoRole - must use revoke_role
    let (env, admin, client) = setup();
    let target = env.generate();
    assert!(client.try_grant_role(&admin, &target, &Role::NoRole).is_err());
}

#[test]
fn test_grant_role_to_admin_self_forbidden() {
    // Admin cannot grant a role to their own address
    let (_, admin, client) = setup();
    assert!(client.try_grant_role(&admin, &admin, &Role::Operator).is_err());
}

#[test]
fn test_grant_role_non_admin_forbidden() {
    let (env, _, client) = setup();
    let stranger = env.generate();
    let target = env.generate();
    assert!(client.try_grant_role(&stranger, &target, &Role::Verifier).is_err());
}

#[test]
fn test_grant_role_override() {
    let (env, admin, client) = setup();
    let user = env.generate();
    client.grant_role(&admin, &user, &Role::Operator);
    assert_eq!(client.get_role(&user), Role::Operator);
    client.grant_role(&admin, &user, &Role::Verifier);
    assert_eq!(client.get_role(&user), Role::Verifier);
}

#[test]
fn test_grant_role_multiple_users() {
    let (env, admin, client) = setup();
    let v1 = env.generate();
    let v2 = env.generate();
    let op = env.generate();
    client.grant_role(&admin, &v1, &Role::Verifier);
    client.grant_role(&admin, &v2, &Role::Verifier);
    client.grant_role(&admin, &op, &Role::Operator);
    assert_eq!(client.get_role(&v1), Role::Verifier);
    assert_eq!(client.get_role(&v2), Role::Verifier);
    assert_eq!(client.get_role(&op), Role::Operator);
}

#[test]
fn test_revoke_role_success() {
    let (env, admin, client) = setup();
    let operator = env.generate();
    client.grant_role(&admin, &operator, &Role::Operator);
    assert_eq!(client.get_role(&operator), Role::Operator);
    client.revoke_role(&admin, &operator);
    // After revoke the entry is removed - should return None
    assert_eq!(client.get_role(&operator), Role::NoRole);
    assert!(!client.has_role(&operator, &Role::Operator));
}

#[test]
fn test_revoke_role_admin_forbidden() {
    // Cannot revoke the admin's own role
    let (_, admin, client) = setup();
    assert!(client.try_revoke_role(&admin, &admin).is_err());
}

#[test]
fn test_revoke_role_not_assigned() {
    // Revoking a role from an address that has none must fail
    let (env, admin, client) = setup();
    let stranger = env.generate();
    assert!(client.try_revoke_role(&admin, &stranger).is_err());
}

#[test]
fn test_revoke_role_non_admin_forbidden() {
    let (env, admin, client) = setup();
    let operator = env.generate();
    let stranger = env.generate();
    client.grant_role(&admin, &operator, &Role::Operator);
    assert!(client.try_revoke_role(&stranger, &operator).is_err());
}

#[test]
fn test_revoke_then_re_grant() {
    let (env, admin, client) = setup();
    let user = env.generate();
    client.grant_role(&admin, &user, &Role::Verifier);
    client.revoke_role(&admin, &user);
    assert_eq!(client.get_role(&user), Role::NoRole);
    // Re-granting after revoke must work
    client.grant_role(&admin, &user, &Role::Operator);
    assert_eq!(client.get_role(&user), Role::Operator);
}

#[test]
fn test_transfer_admin_success() {
    let (env, admin, client) = setup();
    let new_admin = env.generate();
    client.transfer_admin(&admin, &new_admin);
    assert_eq!(client.get_admin(), new_admin);
    assert_eq!(client.get_role(&new_admin), Role::Admin);
    // Old admin's role entry must be removed
    assert_eq!(client.get_role(&admin), Role::NoRole);
}

#[test]
fn test_transfer_admin_to_self_forbidden() {
    let (_, admin, client) = setup();
    assert!(client.try_transfer_admin(&admin, &admin).is_err());
}

#[test]
fn test_transfer_admin_non_admin_forbidden() {
    let (env, _, client) = setup();
    let stranger = env.generate();
    let new_admin = env.generate();
    assert!(client.try_transfer_admin(&stranger, &new_admin).is_err());
}

#[test]
fn test_transfer_admin_to_existing_role_holder_forbidden() {
    // new_admin already has Operator role - transfer must fail to avoid silent overwrite
    let (env, admin, client) = setup();
    let operator = env.generate();
    client.grant_role(&admin, &operator, &Role::Operator);
    assert!(client.try_transfer_admin(&admin, &operator).is_err());
}

#[test]
fn test_transfer_admin_to_verifier_forbidden() {
    let (env, admin, client) = setup();
    let verifier = env.generate();
    client.grant_role(&admin, &verifier, &Role::Verifier);
    assert!(client.try_transfer_admin(&admin, &verifier).is_err());
}

#[test]
fn test_transfer_admin_old_admin_loses_privileges() {
    let (env, admin, client) = setup();
    let new_admin = env.generate();
    client.transfer_admin(&admin, &new_admin);
    // Old admin can no longer pause
    assert!(client.try_pause(&admin).is_err());
}

#[test]
fn test_transfer_admin_new_admin_can_act() {
    let (env, admin, client) = setup();
    let new_admin = env.generate();
    client.transfer_admin(&admin, &new_admin);
    // New admin can pause
    assert!(client.try_pause(&new_admin).is_ok());
}

#[test]
fn test_transfer_admin_chain() {
    // A to B to C
    let (env, admin_a, client) = setup();
    let admin_b = env.generate();
    let admin_c = env.generate();
    client.transfer_admin(&admin_a, &admin_b);
    assert_eq!(client.get_admin(), admin_b);
    client.transfer_admin(&admin_b, &admin_c);
    assert_eq!(client.get_admin(), admin_c);
    assert_eq!(client.get_role(&admin_a), Role::NoRole);
    assert_eq!(client.get_role(&admin_b), Role::NoRole);
    assert_eq!(client.get_role(&admin_c), Role::Admin);
}

#[test]
fn test_get_admin_before_init_fails() {
    let (_, client) = deploy_uninit();
    assert!(client.try_get_admin().is_err());
}

#[test]
fn test_get_role_unknown_address_returns_none() {
    let (env, _, client) = setup();
    let unknown = env.generate();
    assert_eq!(client.get_role(&unknown), Role::NoRole);
}

#[test]
fn lib_test_initialize_success() {
    let (env, client) = deploy_uninit();
    let admin = env.generate();
    assert!(client.try_initialize(&admin).is_ok());
    // Admin is stored correctly
    assert_eq!(client.get_admin(), admin);
    // Admin role is set
    assert_eq!(client.get_role(&admin), Role::Admin);
    // Protocol starts unpaused
    assert!(!client.is_paused());
}

#[test]
fn test_initialize_already_initialized_returns_correct_error() {
    let (_, admin, client) = setup();
    let result = client.try_initialize(&admin);
    assert_eq!(result.unwrap_err(), KoraError::AlreadyInitialized);
}

#[test]
fn test_initialize_second_admin_ignored() {
    // A second initialize with a different admin must fail - original admin unchanged
    let (env, admin, client) = setup();
    let attacker = env.generate();
    let _ = client.try_initialize(&attacker);
    assert_eq!(client.get_admin(), admin);
}

#[test]
fn test_pause_sets_paused_flag() {
    let (_, admin, client) = setup();
    assert!(!client.is_paused());
    client.pause(&admin);
    assert!(client.is_paused());
}

#[test]
fn test_pause_requires_admin_auth() {
    let (_, admin, client) = setup();
    assert!(client.try_pause(&admin).is_ok());
    assert_eq!(client.authorizations(), vec![admin]);
}

#[test]
fn test_pause_non_admin_returns_not_admin() {
    let (env, _, client) = setup();
    let stranger = env.generate();
    let result = client.try_pause(&stranger);
    assert_eq!(result.unwrap_err(), KoraError::NotAdmin);
}

#[test]
fn test_pause_already_paused_returns_correct_error() {
    let (_, admin, client) = setup();
    client.pause(&admin);
    let result = client.try_pause(&admin);
    assert_eq!(result.unwrap_err(), KoraError::AlreadyPaused);
}

#[test]
fn test_pause_state_unchanged_after_double_pause() {
    // After a failed second pause, the contract must still be paused
    let (_, admin, client) = setup();
    client.pause(&admin);
    let _ = client.try_pause(&admin);
    assert!(client.is_paused());
}

#[test]
fn test_unpause_clears_paused_flag() {
    let (_, admin, client) = setup();
    client.pause(&admin);
    client.unpause(&admin);
    assert!(!client.is_paused());
}

#[test]
fn test_unpause_requires_admin_auth() {
    let (_, admin, client) = setup();
    client.pause(&admin);
    assert!(client.try_unpause(&admin).is_ok());
    assert_eq!(client.authorizations(), vec![admin]);
}

#[test]
fn test_unpause_non_admin_returns_not_admin() {
    let (env, admin, client) = setup();
    client.pause(&admin);
    let stranger = env.generate();
    let result = client.try_unpause(&stranger);
    assert_eq!(result.unwrap_err(), KoraError::NotAdmin);
}

#[test]
fn test_unpause_when_not_paused_returns_correct_error() {
    let (_, admin, client) = setup();
    let result = client.try_unpause(&admin);
    assert_eq!(result.unwrap_err(), KoraError::NotPaused);
}

#[test]
fn test_unpause_state_unchanged_after_failed_unpause() {
    // After a failed unpause (not paused), state must still be unpaused
    let (_, admin, client) = setup();
    let _ = client.try_unpause(&admin);
    assert!(!client.is_paused());
}

#[test]
fn lib_test_pause_unpause_cycle_multiple_times() {
    let (_, admin, client) = setup();
    for _ in 0..5 {
        client.pause(&admin);
        assert!(client.is_paused());
        client.unpause(&admin);
        assert!(!client.is_paused());
    }
}

#[test]
fn test_grant_role_operator_success() {
    let (env, admin, client) = setup();
    let operator = env.generate();
    client.grant_role(&admin, &operator, &Role::Operator);
    assert_eq!(client.get_role(&operator), Role::Operator);
}

#[test]
fn test_grant_role_verifier_success() {
    let (env, admin, client) = setup();
    let verifier = env.generate();
    client.grant_role(&admin, &verifier, &Role::Verifier);
    assert_eq!(client.get_role(&verifier), Role::Verifier);
}

#[test]
fn test_grant_role_requires_admin_auth() {
    let (env, admin, client) = setup();
    let target = env.generate();
    assert!(client.try_grant_role(&admin, &target, &Role::Verifier).is_ok());
    assert_eq!(client.authorizations(), vec![admin]);
}

#[test]
fn test_grant_role_non_admin_returns_not_admin() {
    let (env, _, client) = setup();
    let stranger = env.generate();
    let target = env.generate();
    let result = client.try_grant_role(&stranger, &target, &Role::Verifier);
    assert_eq!(result.unwrap_err(), KoraError::NotAdmin);
}

#[test]
fn test_grant_role_admin_variant_returns_unauthorized() {
    let (env, admin, client) = setup();
    let target = env.generate();
    let result = client.try_grant_role(&admin, &target, &Role::Admin);
    assert_eq!(result.unwrap_err(), KoraError::Unauthorized);
}

#[test]
fn test_grant_role_none_variant_returns_unauthorized() {
    let (env, admin, client) = setup();
    let target = env.generate();
    let result = client.try_grant_role(&admin, &target, &Role::NoRole);
    assert_eq!(result.unwrap_err(), KoraError::Unauthorized);
}

#[test]
fn test_grant_role_to_self_returns_unauthorized() {
    let (_, admin, client) = setup();
    let result = client.try_grant_role(&admin, &admin, &Role::Operator);
    assert_eq!(result.unwrap_err(), KoraError::Unauthorized);
}

#[test]
fn test_grant_role_state_unchanged_after_failed_grant() {
    // After a rejected grant, the target must still have no role
    let (env, admin, client) = setup();
    let target = env.generate();
    let _ = client.try_grant_role(&admin, &target, &Role::Admin);
    assert_eq!(client.get_role(&target), Role::NoRole);
}

#[test]
fn test_grant_role_override_operator_to_verifier() {
    let (env, admin, client) = setup();
    let user = env.generate();
    client.grant_role(&admin, &user, &Role::Operator);
    client.grant_role(&admin, &user, &Role::Verifier);
    assert_eq!(client.get_role(&user), Role::Verifier);
}

#[test]
fn test_grant_role_override_verifier_to_operator() {
    let (env, admin, client) = setup();
    let user = env.generate();
    client.grant_role(&admin, &user, &Role::Verifier);
    client.grant_role(&admin, &user, &Role::Operator);
    assert_eq!(client.get_role(&user), Role::Operator);
}

#[test]
fn test_grant_role_same_role_twice_idempotent() {
    let (env, admin, client) = setup();
    let user = env.generate();
    client.grant_role(&admin, &user, &Role::Verifier);
    client.grant_role(&admin, &user, &Role::Verifier);
    assert_eq!(client.get_role(&user), Role::Verifier);
}

#[test]
fn test_grant_role_multiple_users_independent() {
    let (env, admin, client) = setup();
    let v1 = env.generate();
    let v2 = env.generate();
    let op = env.generate();
    client.grant_role(&admin, &v1, &Role::Verifier);
    client.grant_role(&admin, &v2, &Role::Verifier);
    client.grant_role(&admin, &op, &Role::Operator);
    assert_eq!(client.get_role(&v1), Role::Verifier);
    assert_eq!(client.get_role(&v2), Role::Verifier);
    assert_eq!(client.get_role(&op), Role::Operator);
    // Revoking one does not affect others
    client.revoke_role(&admin, &v1);
    assert_eq!(client.get_role(&v1), Role::NoRole);
    assert_eq!(client.get_role(&v2), Role::Verifier);
}

#[test]
fn lib_test_revoke_role_success() {
    let (env, admin, client) = setup();
    let operator = env.generate();
    client.grant_role(&admin, &operator, &Role::Operator);
    client.revoke_role(&admin, &operator);
    assert_eq!(client.get_role(&operator), Role::NoRole);
}

#[test]
fn test_revoke_role_requires_admin_auth() {
    let (env, admin, client) = setup();
    let target = env.generate();
    client.grant_role(&admin, &target, &Role::Operator);
    assert!(client.try_revoke_role(&admin, &target).is_ok());
    assert_eq!(client.authorizations(), vec![admin]);
}

#[test]
fn test_revoke_role_non_admin_returns_not_admin() {
    let (env, admin, client) = setup();
    let operator = env.generate();
    let stranger = env.generate();
    client.grant_role(&admin, &operator, &Role::Operator);
    let result = client.try_revoke_role(&stranger, &operator);
    assert_eq!(result.unwrap_err(), KoraError::NotAdmin);
}

#[test]
fn test_revoke_role_admin_returns_unauthorized() {
    let (_, admin, client) = setup();
    let result = client.try_revoke_role(&admin, &admin);
    assert_eq!(result.unwrap_err(), KoraError::Unauthorized);
}

#[test]
fn test_revoke_role_not_assigned_returns_correct_error() {
    let (env, admin, client) = setup();
    let stranger = env.generate();
    let result = client.try_revoke_role(&admin, &stranger);
    assert_eq!(result.unwrap_err(), KoraError::RoleNotAssigned);
}

#[test]
fn test_revoke_role_state_unchanged_after_failed_revoke() {
    // After a failed revoke (no role), target still has no role
    let (env, admin, client) = setup();
    let stranger = env.generate();
    let _ = client.try_revoke_role(&admin, &stranger);
    assert_eq!(client.get_role(&stranger), Role::NoRole);
}

#[test]
fn test_revoke_role_twice_fails_second_time() {
    let (env, admin, client) = setup();
    let user = env.generate();
    client.grant_role(&admin, &user, &Role::Verifier);
    client.revoke_role(&admin, &user);
    // Second revoke must fail - role is already gone
    let result = client.try_revoke_role(&admin, &user);
    assert_eq!(result.unwrap_err(), KoraError::RoleNotAssigned);
}

#[test]
fn lib_test_revoke_then_re_grant() {
    let (env, admin, client) = setup();
    let user = env.generate();
    client.grant_role(&admin, &user, &Role::Verifier);
    client.revoke_role(&admin, &user);
    client.grant_role(&admin, &user, &Role::Operator);
    assert_eq!(client.get_role(&user), Role::Operator);
}

#[test]
fn lib_test_transfer_admin_success() {
    let (env, admin, client) = setup();
    let new_admin = env.generate();
    client.transfer_admin(&admin, &new_admin);
    assert_eq!(client.get_admin(), new_admin);
    assert_eq!(client.get_role(&new_admin), Role::Admin);
    assert_eq!(client.get_role(&admin), Role::NoRole);
}

#[test]
fn test_transfer_admin_requires_current_admin_auth() {
    let (env, admin, client) = setup();
    let new_admin = env.generate();
    assert!(client.try_transfer_admin(&admin, &new_admin).is_ok());
    assert_eq!(client.authorizations(), vec![admin]);
}

#[test]
fn test_transfer_admin_non_admin_returns_not_admin() {
    let (env, _, client) = setup();
    let stranger = env.generate();
    let new_admin = env.generate();
    let result = client.try_transfer_admin(&stranger, &new_admin);
    assert_eq!(result.unwrap_err(), KoraError::NotAdmin);
}

#[test]
fn test_transfer_admin_to_self_returns_invalid_address() {
    let (_, admin, client) = setup();
    let result = client.try_transfer_admin(&admin, &admin);
    assert_eq!(result.unwrap_err(), KoraError::InvalidAddress);
}

#[test]
fn test_transfer_admin_to_operator_returns_unauthorized() {
    let (env, admin, client) = setup();
    let operator = env.generate();
    client.grant_role(&admin, &operator, &Role::Operator);
    let result = client.try_transfer_admin(&admin, &operator);
    assert_eq!(result.unwrap_err(), KoraError::Unauthorized);
}

#[test]
fn test_transfer_admin_to_verifier_returns_unauthorized() {
    let (env, admin, client) = setup();
    let verifier = env.generate();
    client.grant_role(&admin, &verifier, &Role::Verifier);
    let result = client.try_transfer_admin(&admin, &verifier);
    assert_eq!(result.unwrap_err(), KoraError::Unauthorized);
}

#[test]
fn test_transfer_admin_state_unchanged_after_failed_transfer() {
    // After a rejected transfer, original admin must still be admin
    let (_, admin, client) = setup();
    let _ = client.try_transfer_admin(&admin, &admin);
    assert_eq!(client.get_admin(), admin);
    assert_eq!(client.get_role(&admin), Role::Admin);
}

#[test]
fn test_transfer_admin_old_admin_loses_all_privileges() {
    let (env, admin, client) = setup();
    let new_admin = env.generate();
    client.transfer_admin(&admin, &new_admin);
    // Old admin cannot pause
    assert!(client.try_pause(&admin).is_err());
    // Old admin cannot grant roles
    let target = env.generate();
    assert!(client.try_grant_role(&admin, &target, &Role::Verifier).is_err());
    // Old admin cannot transfer admin again
    assert!(client.try_transfer_admin(&admin, &target).is_err());
}

#[test]
fn test_transfer_admin_new_admin_has_full_privileges() {
    let (env, admin, client) = setup();
    let new_admin = env.generate();
    client.transfer_admin(&admin, &new_admin);
    // New admin can pause
    client.pause(&new_admin);
    assert!(client.is_paused());
    // New admin can unpause
    client.unpause(&new_admin);
    // New admin can grant roles
    let target = env.generate();
    client.grant_role(&new_admin, &target, &Role::Verifier);
    assert_eq!(client.get_role(&target), Role::Verifier);
}

#[test]
fn test_transfer_admin_chain_a_to_b_to_c() {
    let (env, admin_a, client) = setup();
    let admin_b = env.generate();
    let admin_c = env.generate();
    client.transfer_admin(&admin_a, &admin_b);
    assert_eq!(client.get_admin(), admin_b);
    client.transfer_admin(&admin_b, &admin_c);
    assert_eq!(client.get_admin(), admin_c);
    assert_eq!(client.get_role(&admin_a), Role::NoRole);
    assert_eq!(client.get_role(&admin_b), Role::NoRole);
    assert_eq!(client.get_role(&admin_c), Role::Admin);
}

#[test]
fn test_transfer_admin_to_clean_address_succeeds() {
    // Transfer to an address with no prior role must succeed
    let (env, admin, client) = setup();
    let new_admin = env.generate();
    assert_eq!(client.get_role(&new_admin), Role::NoRole);
    assert!(client.try_transfer_admin(&admin, &new_admin).is_ok());
}

#[test]
fn test_pause_before_init_returns_not_initialized() {
    let (env, client) = deploy_uninit();
    let admin = env.generate();
    let result = client.try_pause(&admin);
    assert_eq!(result.unwrap_err(), KoraError::NotInitialized);
}

#[test]
fn test_grant_role_before_init_returns_not_initialized() {
    let (env, client) = deploy_uninit();
    let admin = env.generate();
    let target = env.generate();
    let result = client.try_grant_role(&admin, &target, &Role::Verifier);
    assert_eq!(result.unwrap_err(), KoraError::NotInitialized);
}

#[test]
fn test_revoke_role_before_init_returns_not_initialized() {
    let (env, client) = deploy_uninit();
    let admin = env.generate();
    let target = env.generate();
    let result = client.try_revoke_role(&admin, &target);
    assert_eq!(result.unwrap_err(), KoraError::NotInitialized);
}

#[test]
fn test_transfer_admin_before_init_returns_not_initialized() {
    let (env, client) = deploy_uninit();
    let admin = env.generate();
    let new_admin = env.generate();
    let result = client.try_transfer_admin(&admin, &new_admin);
    assert_eq!(result.unwrap_err(), KoraError::NotInitialized);
}

#[test]
fn test_get_role_falls_back_to_admin_when_role_key_missing() {
    let (_, admin, client) = setup();
    client.contract.borrow_mut().roles.remove(&admin);
    assert_eq!(client.get_role(&admin), Role::Admin);
}

#[test]
fn test_get_admin_before_init_returns_not_initialized() {
    let (_, client) = deploy_uninit();
    let result = client.try_get_admin();
    assert_eq!(result.unwrap_err(), KoraError::NotInitialized);
}

#[test]
fn test_get_admin_returns_correct_address() {
    let (_, admin, client) = setup();
    assert_eq!(client.get_admin(), admin);
}

#[test]
fn lib_test_get_role_unknown_address_returns_none() {
    let (env, _, client) = setup();
    let unknown = env.generate();
    assert_eq!(client.get_role(&unknown), Role::NoRole);
}

#[test]
fn test_get_role_admin_returns_admin() {
    let (_, admin, client) = setup();
    assert_eq!(client.get_role(&admin), Role::Admin);
}

#[test]
fn test_is_paused_default_false() {
    let (_, _, client) = setup();
    assert!(!client.is_paused());
}

#[test]
fn test_is_paused_reflects_state_correctly() {
    let (_, admin, client) = setup();
    assert!(!client.is_paused());
    client.pause(&admin);
    assert!(client.is_paused());
    client.unpause(&admin);
    assert!(!client.is_paused());
}

#[test]
fn test_revoke_role_then_transfer_admin_to_that_address_succeeds() {
    // After revoking a role, the address is clean and can receive admin
    let (env, admin, client) = setup();
    let user = env.generate();
    client.grant_role(&admin, &user, &Role::Operator);
    client.revoke_role(&admin, &user);
    assert_eq!(client.get_role(&user), Role::NoRole);
    assert!(client.try_transfer_admin(&admin, &user).is_ok());
    assert_eq!(client.get_admin(), user);
}

#[test]
fn test_pause_does_not_affect_role_state() {
    let (env, admin, client) = setup();
    let verifier = env.generate();
    client.grant_role(&admin, &verifier, &Role::Verifier);
    client.pause(&admin);
    // Roles are unaffected by pause state
    assert_eq!(client.get_role(&verifier), Role::Verifier);
    assert_eq!(client.get_role(&admin), Role::Admin);
}

#[test]
fn test_grant_and_revoke_do_not_affect_pause_state() {
    let (env, admin, client) = setup();
    let user = env.generate();
    client.pause(&admin);
    client.grant_role(&admin, &user, &Role::Verifier);
    assert!(client.is_paused()); // pause state unchanged
    client.revoke_role(&admin, &user);
    assert!(client.is_paused()); // still paused
}

#[test]
fn test_transfer_admin() {
    let (env, admin, client) = setup();
    let new_admin = env.generate();

    client.transfer_admin(&admin, &new_admin);
    assert_eq!(client.get_admin(), new_admin);
    assert_eq!(client.get_role(&new_admin), Role::Admin);
    assert_eq!(client.get_role(&admin), Role::NoRole);
}

#[test]
fn test_transfer_admin_self_rejected() {
    let (_, admin, client) = setup();
    assert!(client.try_transfer_admin(&admin, &admin).is_err());
}

#[test]
fn test_non_admin_cannot_transfer_admin() {
    let (env, _, client) = setup();
    let stranger = env.generate();
    let new_admin = env.generate();
    assert!(client.try_transfer_admin(&stranger, &new_admin).is_err());
}

#[test]
fn test_has_role_returns_false_for_unassigned() {
    let (env, _, client) = setup();
    let user = env.generate();
    assert!(!client.has_role(&user, &Role::Verifier));
    assert!(!client.has_role(&user, &Role::Operator));
}

#[test]
fn test_has_role_returns_true_after_grant() {
    let (env, admin, client) = setup();
    let user = env.generate();
    client.grant_role(&admin, &user, &Role::Verifier);
    assert!(client.has_role(&user, &Role::Verifier));
    assert!(!client.has_role(&user, &Role::Operator));
}

#[test]
fn test_initialize_already_initialized_fails() {
    let (_, admin, client) = setup();
    let result = client.try_initialize(&admin);
    assert!(result.is_err());
}

fn bumped(address: Address) -> Effect<StoreOp> {
    Step::Store(StoreOp::ExtendTtl {
        key: DataKey::Role(address),
        threshold: 518_400,
        extend_to: 518_400,
    })
}

#[test]
fn initialize_stores_admin_flag_and_role() {
    let (env, client) = deploy_uninit();
    let admin = env.generate();
    client.initialize(&admin);
    assert_eq!(
        client.steps(),
        vec![
            Step::Store(StoreOp::SetAdmin(admin)),
            Step::Store(StoreOp::SetPaused(false)),
            Step::Store(StoreOp::SetRole(admin, Role::Admin)),
            bumped(admin),
        ]
    );
}

#[test]
fn pause_and_unpause_are_published() {
    let (_, admin, client) = setup();
    client.pause(&admin);
    assert_eq!(
        client.steps(),
        vec![
            Step::RequireAuth(admin),
            bumped(admin),
            Step::Store(StoreOp::SetGuard(true)),
            Step::Store(StoreOp::SetPaused(true)),
            Step::Publish(Event {
                topic: Topic::Paused,
                shape: Shape::Tuple,
                data: vec![Value::Address(admin), Value::U64(1_700_000_000)],
            }),
            Step::Store(StoreOp::SetGuard(false)),
        ]
    );
    client.unpause(&admin);
    assert_eq!(
        client.steps()[4],
        Step::Publish(Event {
            topic: Topic::Unpaused,
            shape: Shape::Tuple,
            data: vec![Value::Address(admin), Value::U64(1_700_000_000)],
        })
    );
    assert_eq!(Topic::Paused.symbol(), "PAUSED");
    assert_eq!(Topic::Unpaused.symbol(), "UNPAUSED");
}

#[test]
fn roles_are_stored_extended_and_published() {
    let (env, admin, client) = setup();
    let user = env.generate();
    client.grant_role(&admin, &user, &Role::Operator);
    assert_eq!(
        client.steps(),
        vec![
            Step::RequireAuth(admin),
            bumped(admin),
            Step::Store(StoreOp::SetRole(user, Role::Operator)),
            bumped(user),
            Step::Publish(Event {
                topic: Topic::RolGrt,
                shape: Shape::Tuple,
                data: vec![Value::Address(admin), Value::Address(user)],
            }),
        ]
    );
    assert_eq!(client.get_role(&user), Role::Operator);
    assert_eq!(client.steps(), vec![bumped(user)]);
    client.revoke_role(&admin, &user);
    assert_eq!(
        client.steps(),
        vec![
            Step::RequireAuth(admin),
            bumped(admin),
            Step::Store(StoreOp::RemoveRole(user)),
            Step::Publish(Event {
                topic: Topic::RolRvk,
                shape: Shape::Tuple,
                data: vec![Value::Address(admin), Value::Address(user)],
            }),
        ]
    );
    assert_eq!(client.get_role(&user), Role::NoRole);
    assert_eq!(client.steps(), vec![]);
}

#[test]
fn transfer_moves_the_role_entry() {
    let (env, admin, client) = setup();
    let new_admin = env.generate();
    client.transfer_admin(&admin, &new_admin);
    assert_eq!(
        client.steps(),
        vec![
            Step::RequireAuth(admin),
            bumped(admin),
            Step::Store(StoreOp::SetAdmin(new_admin)),
            Step::Store(StoreOp::SetRole(new_admin, Role::Admin)),
            bumped(new_admin),
            Step::Store(StoreOp::RemoveRole(admin)),
            Step::Publish(Event {
                topic: Topic::AdmTrf,
                shape: Shape::Bare,
                data: vec![Value::Address(new_admin)],
            }),
        ]
    );
}

#[test]
fn refused_request_asks_for_authorization_only() {
    let (env, admin, client) = setup();
    let stranger = env.generate();
    let _ = client.try_pause(&stranger);
    assert_eq!(client.steps(), vec![Step::RequireAuth(stranger)]);
    let _ = client.try_unpause(&admin);
    assert_eq!(client.steps(), vec![Step::RequireAuth(admin)]);
    let _ = client.try_grant_role(&stranger, &admin, &Role::Verifier);
    assert_eq!(client.steps(), vec![Step::RequireAuth(stranger)]);
    let _ = client.try_initialize(&stranger);
    assert_eq!(client.steps(), vec![]);
}

#[test]
fn guarded_requests_cannot_be_entered_again() {
    let (_, admin, client) = setup();
    client.contract.borrow_mut().guard.entered = true;
    assert_eq!(client.try_pause(&admin), Err(KoraError::Reentrancy));
    client.contract.borrow_mut().paused = true;
    assert_eq!(client.try_unpause(&admin), Err(KoraError::Reentrancy));
}

#[test]
fn guard_is_down_after_each_request() {
    let (_, admin, client) = setup();
    client.pause(&admin);
    assert!(!client.contract.borrow().guard.entered);
    client.unpause(&admin);
    assert!(!client.contract.borrow().guard.entered);
}

#[test]
fn admin_without_an_entry_is_still_the_admin() {
    let (env, admin, client) = setup();
    client.contract.borrow_mut().roles.remove(&admin);
    assert!(!client.has_role(&admin, &Role::Admin));
    assert_eq!(client.get_role(&admin), Role::Admin);
    assert_eq!(client.try_revoke_role(&admin, &admin), Err(KoraError::Unauthorized));
    client.pause(&admin);
    assert_eq!(client.steps()[1], Step::Store(StoreOp::SetGuard(true)));
    client.transfer_admin(&admin, &env.generate());
    assert_eq!(client.get_role(&admin), Role::NoRole);
}

#[test]
fn exactly_one_address_is_admin() {
    let (env, admin, client) = setup();
    let second = env.generate();
    let third = env.generate();
    client.grant_role(&admin, &third, &Role::Verifier);
    client.transfer_admin(&admin, &second);
    let roles = [admin, second, third].map(|a| client.get_role(&a));
    assert_eq!(roles, [Role::NoRole, Role::Admin, Role::Verifier]);
}

#[test]
fn handing_over_and_back_restores_the_admin() {
    let (env, admin, client) = setup();
    let other = env.generate();
    client.transfer_admin(&admin, &other);
    client.transfer_admin(&other, &admin);
    assert_eq!(client.get_admin(), admin);
    assert_eq!(client.get_role(&admin), Role::Admin);
    assert_eq!(client.get_role(&other), Role::NoRole);
}

#[test]
fn unpause_before_init_is_refused() {
    let (env, client) = deploy_uninit();
    assert_eq!(client.try_unpause(&env.generate()), Err(KoraError::NotInitialized));
}

#[test]
fn admin_and_flag_live_with_the_instance() {
    let (env, _, _) = setup();
    assert_eq!(DataKey::Admin.durability(), Durability::Instance);
    assert_eq!(DataKey::Paused.durability(), Durability::Instance);
    assert_eq!(DataKey::Role(env.generate()).durability(), Durability::Persistent);
}
