//! Protocol-wide roles and the emergency pause.

use vstd::prelude::*;

use crate::shared::errors::KoraError;
use crate::shared::events;
use crate::shared::host::{Durability, Invocation};
use crate::shared::reentrancy::ReentrancyGuard;
use crate::shared::table::{Stored, Table};
use crate::shared::types::Address;

pub mod laws;
pub mod model;
pub mod operations;

verus! {

/// Lifetime, in ledgers, below which a role entry is extended (about 30 days).
pub const PERSISTENT_TTL_THRESHOLD: u32 = 518_400;

/// Lifetime, in ledgers, to which a role entry is extended (about 30 days).
pub const PERSISTENT_TTL_BUMP: u32 = 518_400;

/// What the contract stores entries under.
#[derive(Clone, Copy, Debug, PartialEq, Eq, Structural)]
pub enum DataKey {
    /// The admin's address.
    Admin,
    /// The protocol's pause flag.
    Paused,
    /// The role of an address.
    Role(Address),
}

impl DataKey {
    pub open spec fn spec_durability(self) -> Durability {
        match self {
            DataKey::Admin => Durability::Instance,
            DataKey::Paused => Durability::Instance,
            DataKey::Role(_) => Durability::Persistent,
        }
    }

    /// The admin and the pause flag live with the contract instance; roles are
    /// entries of their own.
    pub fn durability(self) -> (r: Durability)
        ensures
            r == self.spec_durability(),
    {
        match self {
            DataKey::Admin => Durability::Instance,
            DataKey::Paused => Durability::Instance,
            DataKey::Role(_) => Durability::Persistent,
        }
    }
}

#[derive(Clone, Copy, Debug, PartialEq, Eq, Structural)]
pub enum Role {
    Admin,
    Operator,
    Verifier,
    NoRole,
}

impl View for Role {
    type V = Role;

    open spec fn view(&self) -> Role {
        *self
    }
}

impl Stored for Role {
    fn duplicate(&self) -> (r: Self) {
        *self
    }
}

/// A change to the contract's storage.
#[derive(Clone, Copy, Debug, PartialEq, Eq, Structural)]
pub enum StoreOp {
    SetAdmin(Address),
    SetPaused(bool),
    SetGuard(bool),
    SetRole(Address, Role),
    RemoveRole(Address),
    ExtendTtl { key: DataKey, threshold: u32, extend_to: u32 },
}

impl View for StoreOp {
    type V = StoreOp;

    open spec fn view(&self) -> StoreOp {
        *self
    }
}

/// The contract's storage: every entry that an invocation can read. A role
/// entry may be missing although the address is the admin, since role entries
/// expire and the admin's address does not.
pub struct AccessControlContract {
    pub admin: Option<Address>,
    pub paused: bool,
    pub guard: ReentrancyGuard,
    pub roles: Table<Address, Role>,
}

impl AccessControlContract {
    /// The contract as it is deployed: not initialized.
    pub fn new() -> (r: Self)
        ensures
            r@ == model::deployed(),
    {
        AccessControlContract {
            admin: None,
            paused: false,
            guard: ReentrancyGuard::new(),
            roles: Table::new(),
        }
    }

    /// One-time initialization. Sets the admin and clears the pause flag.
    pub fn initialize(&mut self, env: &mut Invocation<StoreOp>, admin: Address) -> (r: Result<
        (),
        KoraError,
    >)
        ensures
            model::initialize(old(self)@, admin).reached(r, final(self)@, *old(env), *final(env)),
    {
        if self.admin.is_some() {
            return Err(KoraError::AlreadyInitialized);
        }
        self.write(env, StoreOp::SetAdmin(admin));
        self.write(env, StoreOp::SetPaused(false));
        self.write(env, StoreOp::SetRole(admin, Role::Admin));
        self.bump_persistent(env, DataKey::Role(admin));
        Ok(())
    }

    /// Pauses the entire protocol. Admin only. Fails if already paused.
    pub fn pause(&mut self, env: &mut Invocation<StoreOp>, admin: Address) -> (r: Result<
        (),
        KoraError,
    >)
        ensures
            model::pause(old(self)@, old(env).context, admin).reached(
                r,
                final(self)@,
                *old(env),
                *final(env),
            ),
    {
        env.require_auth(admin);
        self.require_admin(&admin)?;
        if self.paused {
            return Err(KoraError::AlreadyPaused);
        }
        self.guard.require_free()?;
        self.bump_admin(env, &admin);
        self.write(env, StoreOp::SetGuard(true));
        self.write(env, StoreOp::SetPaused(true));
        events::protocol_paused(env, &admin);
        self.write(env, StoreOp::SetGuard(false));
        Ok(())
    }

    /// Unpauses the protocol. Admin only. Fails if not currently paused.
    pub fn unpause(&mut self, env: &mut Invocation<StoreOp>, admin: Address) -> (r: Result<
        (),
        KoraError,
    >)
        ensures
            model::unpause(old(self)@, old(env).context, admin).reached(
                r,
                final(self)@,
                *old(env),
                *final(env),
            ),
    {
        env.require_auth(admin);
        self.require_admin(&admin)?;
        if !self.paused {
            return Err(KoraError::NotPaused);
        }
        self.guard.require_free()?;
        self.bump_admin(env, &admin);
        self.write(env, StoreOp::SetGuard(true));
        self.write(env, StoreOp::SetPaused(false));
        events::protocol_unpaused(env, &admin);
        self.write(env, StoreOp::SetGuard(false));
        Ok(())
    }

    /// Assigns a role to an address. Admin only.
    /// - Cannot grant `Role::Admin` (use `transfer_admin`).
    /// - Cannot grant `Role::NoRole` (use `revoke_role`).
    /// - Cannot grant a role to the current admin address.
    pub fn grant_role(
        &mut self,
        env: &mut Invocation<StoreOp>,
        admin: Address,
        target: Address,
        role: Role,
    ) -> (r: Result<(), KoraError>)
        ensures
            model::grant_role(old(self)@, admin, target, role).reached(
                r,
                final(self)@,
                *old(env),
                *final(env),
            ),
    {
        env.require_auth(admin);
        self.require_admin(&admin)?;
        if role == Role::Admin {
            return Err(KoraError::Unauthorized);
        }
        if role == Role::NoRole {
            return Err(KoraError::Unauthorized);
        }
        if target == admin {
            return Err(KoraError::Unauthorized);
        }
        self.bump_admin(env, &admin);
        self.write(env, StoreOp::SetRole(target, role));
        self.bump_persistent(env, DataKey::Role(target));
        events::role_granted(env, &admin, &target);
        Ok(())
    }

    /// Revokes a role from an address. Admin only.
    /// - Cannot revoke the admin's own role.
    /// - Fails if the target has no role assigned.
    pub fn revoke_role(
        &mut self,
        env: &mut Invocation<StoreOp>,
        admin: Address,
        target: Address,
    ) -> (r: Result<(), KoraError>)
        ensures
            model::revoke_role(old(self)@, admin, target).reached(
                r,
                final(self)@,
                *old(env),
                *final(env),
            ),
    {
        env.require_auth(admin);
        self.require_admin(&admin)?;
        let current_role = self.roles.get(&target).unwrap_or(Role::NoRole);
        if current_role == Role::Admin || target == admin {
            return Err(KoraError::Unauthorized);
        }
        if current_role == Role::NoRole {
            return Err(KoraError::RoleNotAssigned);
        }
        self.bump_admin(env, &admin);
        self.write(env, StoreOp::RemoveRole(target));
        events::role_revoked(env, &admin, &target);
        Ok(())
    }

    /// Transfers the admin role to a new address. The current admin must sign.
    /// - Cannot transfer to self.
    /// - Cannot transfer to an address that holds another role, which would
    ///   silently overwrite it. The caller must revoke first.
    pub fn transfer_admin(
        &mut self,
        env: &mut Invocation<StoreOp>,
        current_admin: Address,
        new_admin: Address,
    ) -> (r: Result<(), KoraError>)
        ensures
            model::transfer_admin(old(self)@, current_admin, new_admin).reached(
                r,
                final(self)@,
                *old(env),
                *final(env),
            ),
    {
        env.require_auth(current_admin);
        self.require_admin(&current_admin)?;
        if current_admin == new_admin {
            return Err(KoraError::InvalidAddress);
        }
        let existing = self.roles.get(&new_admin).unwrap_or(Role::NoRole);
        if existing != Role::NoRole && existing != Role::Admin {
            return Err(KoraError::Unauthorized);
        }
        self.bump_admin(env, &current_admin);
        self.write(env, StoreOp::SetAdmin(new_admin));
        self.write(env, StoreOp::SetRole(new_admin, Role::Admin));
        self.bump_persistent(env, DataKey::Role(new_admin));
        self.write(env, StoreOp::RemoveRole(current_admin));
        events::admin_transferred(env, &new_admin);
        Ok(())
    }

    /// Returns `true` if the protocol is currently paused.
    pub fn is_paused(&self) -> (r: bool)
        ensures
            r == self@.paused,
    {
        self.read_paused()
    }

    /// Returns the role assigned to `address`, or `Role::NoRole` if unassigned.
    /// The admin counts as `Role::Admin` even where its role entry has expired.
    pub fn get_role(&self, env: &mut Invocation<StoreOp>, address: Address) -> (r: Role)
        ensures
            r == model::role_of(self@, address),
            final(env).context == old(env).context,
            final(env).log() == old(env).log() + model::touch(self@, address),
    {
        if let Some(role) = self.roles.get(&address) {
            self.bump_persistent(env, DataKey::Role(address));
            return role;
        }
        if let Some(admin) = self.admin {
            if admin == address {
                return Role::Admin;
            }
        }
        Role::NoRole
    }

    /// Returns `true` if `address` holds an entry for the given `role`; having
    /// no entry counts as `Role::NoRole`.
    pub fn has_role(&self, address: Address, role: Role) -> (r: bool)
        ensures
            r == (model::assigned_role(self@, address) == role),
    {
        let assigned = self.roles.get(&address).unwrap_or(Role::NoRole);
        assigned == role
    }

    /// Returns the current admin address.
    pub fn get_admin(&self) -> (r: Result<Address, KoraError>)
        ensures
            r == model::get_admin(self@),
    {
        self.admin.ok_or(KoraError::NotInitialized)
    }

    fn read_paused(&self) -> (r: bool)
        ensures
            r == self@.paused,
    {
        self.paused
    }

    fn require_admin(&self, caller: &Address) -> (r: Result<(), KoraError>)
        ensures
            r == match model::admin_error(self@, *caller) {
                Some(e) => Err::<(), KoraError>(e),
                None => Ok(()),
            },
    {
        match self.admin {
            None => Err(KoraError::NotInitialized),
            Some(admin) => {
                if admin != *caller {
                    return Err(KoraError::NotAdmin);
                }
                Ok(())
            },
        }
    }

    /// Keeps the caller's role entry alive, where it has one.
    fn bump_admin(&self, env: &mut Invocation<StoreOp>, caller: &Address)
        ensures
            final(env).context == old(env).context,
            final(env).log() == old(env).log() + model::touch(self@, *caller),
    {
        if self.roles.has(caller) {
            self.bump_persistent(env, DataKey::Role(*caller));
        }
    }

    fn bump_persistent(&self, env: &mut Invocation<StoreOp>, key: DataKey)
        ensures
            final(env).context == old(env).context,
            final(env).log() == old(env).log().push(model::bump(key)),
    {
        env.store(
            StoreOp::ExtendTtl {
                key,
                threshold: PERSISTENT_TTL_THRESHOLD,
                extend_to: PERSISTENT_TTL_BUMP,
            },
        );
    }

    /// Changes the storage, here and at the host.
    fn write(&mut self, env: &mut Invocation<StoreOp>, op: StoreOp)
        ensures
            final(self)@ == model::apply(old(self)@, op),
            final(env).context == old(env).context,
            final(env).log() == old(env).log().push(model::stored(op)),
    {
        match op {
            StoreOp::SetAdmin(admin) => {
                self.admin = Some(admin);
            },
            StoreOp::SetPaused(paused) => {
                self.paused = paused;
            },
            StoreOp::SetGuard(entered) => {
                self.guard = ReentrancyGuard { entered };
            },
            StoreOp::SetRole(address, role) => {
                self.roles.set(address, role);
            },
            StoreOp::RemoveRole(address) => {
                self.roles.remove(&address);
            },
            StoreOp::ExtendTtl { .. } => {},
        }
        env.store(op);
    }
}

} // verus!
