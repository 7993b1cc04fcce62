//! The protocol's fees: their rate, and withdrawing what was collected.

use vstd::prelude::*;

use crate::shared::errors::KoraError;
use crate::shared::events;
use crate::shared::host::{Call, Durability, Invocation};
use crate::shared::types::Address;
use crate::shared::validation::{require_non_zero_amount, require_valid_fee_bps};

pub mod laws;
pub mod model;
pub mod operations;

verus! {

/// Lifetime, in ledgers, to which an entry is extended (about 31 days).
pub const PERSISTENT_BUMP_AMOUNT: u32 = 535_680;

/// Lifetime, in ledgers, below which an entry is extended.
pub const PERSISTENT_LIFETIME_THRESHOLD: u32 = 267_840;

/// The fee where none is stored, in basis points.
pub const DEFAULT_FEE_BPS: u32 = 50;

/// What the contract stores entries under.
#[derive(Clone, Copy, Debug, PartialEq, Eq, Structural)]
pub enum DataKey {
    /// The admin's address.
    Admin,
    /// The protocol fee in basis points.
    FeeBps,
    /// Fees accumulated per token (informational).
    Collected(Address),
    /// Set while a withdrawal is under way.
    WithdrawalLock,
}

impl DataKey {
    pub open spec fn spec_durability(self) -> Durability {
        Durability::Persistent
    }

    /// Every entry is kept on its own, so that none is lost with the instance.
    pub fn durability(self) -> (r: Durability)
        ensures
            r == self.spec_durability(),
    {
        Durability::Persistent
    }
}

/// A change to the contract's storage.
#[derive(Clone, Copy, Debug, PartialEq, Eq, Structural)]
pub enum StoreOp {
    SetAdmin(Address),
    SetFeeBps(u32),
    SetWithdrawalLock(bool),
    ExtendTtl { key: DataKey, threshold: u32, extend_to: u32 },
}

impl View for StoreOp {
    type V = StoreOp;

    open spec fn view(&self) -> StoreOp {
        *self
    }
}

/// The contract's storage: every entry that an invocation can read.
pub struct TreasuryContract {
    pub admin: Option<Address>,
    pub fee_bps: Option<u32>,
    pub locked: bool,
}

impl TreasuryContract {
    /// The contract as it is deployed: not initialized.
    pub fn new() -> (r: Self)
        ensures
            r@ == model::deployed(),
    {
        TreasuryContract { admin: None, fee_bps: None, locked: false }
    }

    pub fn initialize(
        &mut self,
        env: &mut Invocation<StoreOp>,
        admin: Address,
        fee_bps: u32,
    ) -> (r: Result<(), KoraError>)
        ensures
            model::initialize(old(self)@, admin, fee_bps).reached(
                r,
                final(self)@,
                *old(env),
                *final(env),
            ),
    {
        if self.admin.is_some() {
            return Err(KoraError::AlreadyInitialized);
        }
        require_valid_fee_bps(fee_bps)?;
        self.write(env, StoreOp::SetAdmin(admin));
        self.write(env, StoreOp::SetFeeBps(fee_bps));
        events::treasury_initialized(env, &admin, fee_bps);
        Ok(())
    }

    /// Updates the protocol fee. Admin only.
    pub fn set_fee_bps(
        &mut self,
        env: &mut Invocation<StoreOp>,
        admin: Address,
        fee_bps: u32,
    ) -> (r: Result<(), KoraError>)
        ensures
            model::set_fee_bps(old(self)@, admin, fee_bps).reached(
                r,
                final(self)@,
                *old(env),
                *final(env),
            ),
    {
        env.require_auth(admin);
        self.require_admin(&admin)?;
        require_valid_fee_bps(fee_bps)?;
        let old_bps = self.get_fee_bps();
        self.write(env, StoreOp::SetFeeBps(fee_bps));
        self.write(
            env,
            StoreOp::ExtendTtl {
                key: DataKey::FeeBps,
                threshold: PERSISTENT_LIFETIME_THRESHOLD,
                extend_to: PERSISTENT_BUMP_AMOUNT,
            },
        );
        events::fee_rate_updated(env, &admin, old_bps, fee_bps);
        Ok(())
    }

    /// Withdraws accumulated fees to a recipient. Admin only. `balance` is what
    /// the token contract reports for the treasury once the lock is taken:
    /// `begin_withdraw` comes before that question, `complete_withdraw` after.
    pub fn withdraw(
        &mut self,
        env: &mut Invocation<StoreOp>,
        admin: Address,
        token: Address,
        recipient: Address,
        amount: i128,
        balance: i128,
    ) -> (r: Result<(), KoraError>)
        ensures
            model::withdraw(
                old(self)@,
                old(env).context,
                admin,
                token,
                recipient,
                amount,
                balance,
            ).reached(r, final(self)@, *old(env), *final(env)),
    {
        self.begin_withdraw(env, admin, amount)?;
        self.complete_withdraw(env, token, recipient, amount, balance)
    }

    /// Checks a withdrawal and takes the lock.
    pub fn begin_withdraw(
        &mut self,
        env: &mut Invocation<StoreOp>,
        admin: Address,
        amount: i128,
    ) -> (r: Result<(), KoraError>)
        ensures
            model::begin_withdraw(old(self)@, admin, amount).reached(
                r,
                final(self)@,
                *old(env),
                *final(env),
            ),
    {
        env.require_auth(admin);
        self.require_admin(&admin)?;
        require_non_zero_amount(amount)?;
        self.acquire_lock(env)
    }

    /// Pays out where the balance allows it, and releases the lock, after the
    /// transfer.
    pub fn complete_withdraw(
        &mut self,
        env: &mut Invocation<StoreOp>,
        token: Address,
        recipient: Address,
        amount: i128,
        balance: i128,
    ) -> (r: Result<(), KoraError>)
        ensures
            model::complete_withdraw(
                old(self)@,
                old(env).context,
                token,
                recipient,
                amount,
                balance,
            ).reached(r, final(self)@, *old(env), *final(env)),
    {
        if balance < amount {
            self.release_lock(env);
            return Err(KoraError::InsufficientPoolBalance);
        }
        env.call(Call::Transfer { token, from: env.context.contract, to: recipient, amount });
        self.release_lock(env);
        events::fee_withdrawn(env, &token, amount);
        Ok(())
    }

    /// Emergency drain: withdraws the entire token balance. Admin only.
    /// `balance` is what the token contract reports for the treasury once the
    /// lock is taken: `begin_emergency_withdraw` comes before that question,
    /// `complete_emergency_withdraw` after.
    pub fn emergency_withdraw(
        &mut self,
        env: &mut Invocation<StoreOp>,
        admin: Address,
        token: Address,
        recipient: Address,
        balance: i128,
    ) -> (r: Result<(), KoraError>)
        ensures
            model::emergency_withdraw(
                old(self)@,
                old(env).context,
                admin,
                token,
                recipient,
                balance,
            ).reached(r, final(self)@, *old(env), *final(env)),
    {
        self.begin_emergency_withdraw(env, admin)?;
        self.complete_emergency_withdraw(env, admin, token, recipient, balance);
        Ok(())
    }

    /// Checks an emergency drain and takes the lock.
    pub fn begin_emergency_withdraw(
        &mut self,
        env: &mut Invocation<StoreOp>,
        admin: Address,
    ) -> (r: Result<(), KoraError>)
        ensures
            model::begin_emergency_withdraw(old(self)@, admin).reached(
                r,
                final(self)@,
                *old(env),
                *final(env),
            ),
    {
        env.require_auth(admin);
        self.require_admin(&admin)?;
        self.acquire_lock(env)
    }

    /// Pays out the whole balance, if there is any, and releases the lock.
    pub fn complete_emergency_withdraw(
        &mut self,
        env: &mut Invocation<StoreOp>,
        admin: Address,
        token: Address,
        recipient: Address,
        balance: i128,
    )
        ensures
            model::complete_emergency_withdraw(
                old(self)@,
                old(env).context,
                admin,
                token,
                recipient,
                balance,
            ).reached(Ok(()), final(self)@, *old(env), *final(env)),
    {
        if balance > 0 {
            env.call(
                Call::Transfer {
                    token,
                    from: env.context.contract,
                    to: recipient,
                    amount: balance,
                },
            );
            self.release_lock(env);
            events::emergency_withdrawn(env, &admin, &token, balance);
        } else {
            self.release_lock(env);
        }
    }

    pub fn get_fee_bps(&self) -> (r: u32)
        ensures
            r == model::fee_rate(self@),
    {
        self.fee_bps.unwrap_or(DEFAULT_FEE_BPS)
    }

    fn require_admin(&self, caller: &Address) -> (r: Result<(), KoraError>)
        ensures
            r == match model::admin_error(self@, *caller) {
                Some(e) => Err::<(), KoraError>(e),
                None => Ok(()),
            },
    {
        match self.admin {
            None => Err(KoraError::NotInitialized),
            Some(admin) => {
                if admin != *caller {
                    return Err(KoraError::NotAdmin);
                }
                Ok(())
            },
        }
    }

    fn acquire_lock(&mut self, env: &mut Invocation<StoreOp>) -> (r: Result<(), KoraError>)
        ensures
            final(env).context == old(env).context,
            old(self)@.locked ==> r == Err::<(), KoraError>(KoraError::Reentrancy) && final(self)@
                == old(self)@ && final(env).log() == old(env).log(),
            !old(self)@.locked ==> r == Ok::<(), KoraError>(()) && final(self)@ == model::apply(
                old(self)@,
                StoreOp::SetWithdrawalLock(true),
            ) && final(env).log() == old(env).log().push(
                model::stored(StoreOp::SetWithdrawalLock(true)),
            ),
    {
        if self.locked {
            return Err(KoraError::Reentrancy);
        }
        self.write(env, StoreOp::SetWithdrawalLock(true));
        Ok(())
    }

    fn release_lock(&mut self, env: &mut Invocation<StoreOp>)
        ensures
            final(self)@ == model::apply(old(self)@, StoreOp::SetWithdrawalLock(false)),
            final(env).context == old(env).context,
            final(env).log() == old(env).log().push(
                model::stored(StoreOp::SetWithdrawalLock(false)),
            ),
    {
        self.write(env, StoreOp::SetWithdrawalLock(false));
    }

    /// Changes the storage, here and at the host.
    fn write(&mut self, env: &mut Invocation<StoreOp>, op: StoreOp)
        ensures
            final(self)@ == model::apply(old(self)@, op),
            final(env).context == old(env).context,
            final(env).log() == old(env).log().push(model::stored(op)),
    {
        match op {
            StoreOp::SetAdmin(admin) => {
                self.admin = Some(admin);
            },
            StoreOp::SetFeeBps(fee_bps) => {
                self.fee_bps = Some(fee_bps);
            },
            StoreOp::SetWithdrawalLock(locked) => {
                self.locked = locked;
            },
            StoreOp::ExtendTtl { .. } => {},
        }
        env.store(op);
    }
}

} // verus!
