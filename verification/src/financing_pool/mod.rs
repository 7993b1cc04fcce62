//! The pool of an invoice: investors' positions, repayment and payout.

use vstd::prelude::*;

use crate::financing_pool::positions::PositionBook;
use crate::shared::errors::KoraError;
use crate::shared::events;
use crate::shared::host::{Call, Durability, Invocation};
use crate::shared::table::Table;
use crate::shared::types::{Address, Pool, Position};
use crate::shared::validation::{bps_of, require_valid_fee_bps, BPS_SCALE};

pub mod laws;
pub mod model;
pub mod operations;
pub mod positions;

verus! {

/// The largest amount that is accepted: half of the range of `i128`.
pub const MAX_AMOUNT: i128 = 85_070_591_730_234_615_865_843_651_857_942_052_863;

/// What the contract stores entries under.
#[derive(Clone, Copy, Debug, PartialEq, Eq, Structural)]
pub enum DataKey {
    Pool(u64),
    /// The positions in an invoice's pool, by investor.
    Positions(u64),
    Admin,
    InvoiceNft,
    Treasury,
    LatePenaltyBps,
    AccessControl,
    /// Present while a repayment of the invoice is under way.
    RepaymentLock(u64),
}

impl DataKey {
    pub open spec fn spec_durability(self) -> Durability {
        match self {
            DataKey::Pool(_) => Durability::Persistent,
            DataKey::Positions(_) => Durability::Persistent,
            DataKey::RepaymentLock(_) => Durability::Persistent,
            _ => Durability::Instance,
        }
    }

    /// What belongs to an invoice is kept in entries of its own; the
    /// configuration lives with the contract instance.
    pub fn durability(self) -> (r: Durability)
        ensures
            r == self.spec_durability(),
    {
        match self {
            DataKey::Pool(_) => Durability::Persistent,
            DataKey::Positions(_) => Durability::Persistent,
            DataKey::RepaymentLock(_) => Durability::Persistent,
            _ => Durability::Instance,
        }
    }
}

/// A change to the contract's storage; `P` is a list of positions.
#[derive(Clone, Debug, PartialEq, Eq)]
pub enum StoreOp<P> {
    SetAdmin(Address),
    SetInvoiceNft(Address),
    SetTreasury(Address),
    SetAccessControl(Address),
    SetLatePenaltyBps(u32),
    SetPool(u64, Pool),
    SetPositions(u64, P),
    SetRepaymentLock(u64),
    RemoveRepaymentLock(u64),
}

impl View for StoreOp<Vec<Position>> {
    type V = StoreOp<Seq<Position>>;

    open spec fn view(&self) -> StoreOp<Seq<Position>> {
        match *self {
            StoreOp::SetAdmin(admin) => StoreOp::SetAdmin(admin),
            StoreOp::SetInvoiceNft(invoice_nft) => StoreOp::SetInvoiceNft(invoice_nft),
            StoreOp::SetTreasury(treasury) => StoreOp::SetTreasury(treasury),
            StoreOp::SetAccessControl(address) => StoreOp::SetAccessControl(address),
            StoreOp::SetLatePenaltyBps(bps) => StoreOp::SetLatePenaltyBps(bps),
            StoreOp::SetPool(invoice_id, pool) => StoreOp::SetPool(invoice_id, pool),
            StoreOp::SetPositions(invoice_id, positions) => StoreOp::SetPositions(
                invoice_id,
                positions@,
            ),
            StoreOp::SetRepaymentLock(invoice_id) => StoreOp::SetRepaymentLock(invoice_id),
            StoreOp::RemoveRepaymentLock(invoice_id) => StoreOp::RemoveRepaymentLock(invoice_id),
        }
    }
}

/// The contract's storage: every entry that an invocation can read.
pub struct FinancingPoolContract {
    pub admin: Option<Address>,
    pub invoice_nft: Option<Address>,
    pub treasury: Option<Address>,
    pub access_control: Option<Address>,
    pub late_penalty_bps: Option<u32>,
    pub pools: Table<u64, Pool>,
    pub positions: Table<u64, PositionBook>,
    pub repayment_locks: Table<u64, bool>,
}

impl FinancingPoolContract {
    /// The contract as it is deployed: not initialized.
    pub fn new() -> (r: Self)
        ensures
            r@ == model::deployed(),
    {
        FinancingPoolContract {
            admin: None,
            invoice_nft: None,
            treasury: None,
            access_control: None,
            late_penalty_bps: None,
            pools: Table::new(),
            positions: Table::new(),
            repayment_locks: Table::new(),
        }
    }

    pub fn initialize(
        &mut self,
        env: &mut Invocation<StoreOp<Vec<Position>>>,
        admin: Address,
        invoice_nft: Address,
        treasury: Address,
        access_control: Address,
        late_penalty_bps: u32,
    ) -> (r: Result<(), KoraError>)
        ensures
            model::initialize(
                old(self)@,
                admin,
                invoice_nft,
                treasury,
                access_control,
                late_penalty_bps,
            ).reached(r, final(self)@, *old(env), *final(env)),
    {
        if self.admin.is_some() {
            return Err(KoraError::AlreadyInitialized);
        }
        require_valid_fee_bps(late_penalty_bps)?;
        self.write(env, StoreOp::SetAdmin(admin));
        self.write(env, StoreOp::SetInvoiceNft(invoice_nft));
        self.write(env, StoreOp::SetTreasury(treasury));
        self.write(env, StoreOp::SetAccessControl(access_control));
        self.write(env, StoreOp::SetLatePenaltyBps(late_penalty_bps));
        Ok(())
    }

    /// Called by the marketplace when an invoice is fully funded: opens the
    /// pool. `invoice_amount` is what the invoice contract reports for the
    /// invoice: `begin_release_funds` comes before that question,
    /// `complete_release_funds` after.
    pub fn release_funds(
        &mut self,
        env: &mut Invocation<StoreOp<Vec<Position>>>,
        marketplace: Address,
        invoice_id: u64,
        token: Address,
        invoice_amount: i128,
    ) -> (r: Result<(), KoraError>)
        ensures
            model::release_funds(
                old(self)@,
                old(env).context,
                marketplace,
                invoice_id,
                token,
                invoice_amount,
            ).reached(r, final(self)@, *old(env), *final(env)),
    {
        let invoice_nft = self.begin_release_funds(env, marketplace, invoice_id, token)?;
        self.complete_release_funds(
            env,
            invoice_nft,
            marketplace,
            invoice_id,
            token,
            invoice_amount,
        )
    }

    /// Checks that a pool can be opened, and returns the invoice contract.
    pub fn begin_release_funds(
        &self,
        env: &mut Invocation<StoreOp<Vec<Position>>>,
        marketplace: Address,
        invoice_id: u64,
        token: Address,
    ) -> (r: Result<Address, KoraError>)
        ensures
            model::begin_release_funds(
                self@,
                old(env).context,
                marketplace,
                invoice_id,
                token,
            ).reached(r, self@, *old(env), *final(env)),
    {
        env.require_auth(marketplace);
        Self::require_not_paused(env)?;
        if self.pools.has(&invoice_id) {
            return Err(KoraError::PoolAlreadyClosed);
        }
        if token == env.context.contract {
            return Err(KoraError::InvalidAddress);
        }
        self.invoice_nft.ok_or(KoraError::NotInitialized)
    }

    /// Opens the pool and marks the invoice as funded.
    pub fn complete_release_funds(
        &mut self,
        env: &mut Invocation<StoreOp<Vec<Position>>>,
        invoice_nft: Address,
        marketplace: Address,
        invoice_id: u64,
        token: Address,
        invoice_amount: i128,
    ) -> (r: Result<(), KoraError>)
        ensures
            model::complete_release_funds(
                old(self)@,
                old(env).context,
                invoice_nft,
                marketplace,
                invoice_id,
                token,
                invoice_amount,
            ).reached(r, final(self)@, *old(env), *final(env)),
    {
        Self::require_amount(invoice_amount)?;
        let late_penalty_bps = match self.late_penalty_bps {
            Some(bps) => bps,
            None => {
                return Err(KoraError::NotInitialized);
            },
        };
        let pool = Pool {
            invoice_id,
            token,
            total_funded: 0,
            face_value: invoice_amount,
            repaid_amount: 0,
            is_closed: false,
            late_penalty_bps,
        };
        self.write(env, StoreOp::SetPool(invoice_id, pool));
        events::pool_opened(env, invoice_id, &marketplace);
        env.call(Call::SetFunded { invoice_nft, caller: env.context.contract, invoice_id });
        Ok(())
    }

    /// Registers an investor's position, in place of an earlier one. Admin
    /// only. A pool takes no more than `u32::MAX` positions.
    pub fn record_position(
        &mut self,
        host: &soroban_sdk::Env,
        env: &mut Invocation<StoreOp<Vec<Position>>>,
        caller: Address,
        invoice_id: u64,
        investor: Address,
        contributed: i128,
        total_pool: i128,
    ) -> (r: Result<(), KoraError>)
        requires
            model::record_position_error(
                old(self)@,
                old(env).context,
                caller,
                contributed,
                total_pool,
            ) is None ==> model::has_room(
                model::get_positions(old(self)@, invoice_id),
                model::new_position(invoice_id, investor, contributed, total_pool),
            ),
        ensures
            model::record_position(
                old(self)@,
                old(env).context,
                caller,
                invoice_id,
                investor,
                contributed,
                total_pool,
            ).reached(r, final(self)@, *old(env), *final(env)),
    {
        env.require_auth(caller);
        self.require_admin(&caller)?;
        Self::require_not_paused(env)?;
        if contributed <= 0 || total_pool <= 0 {
            return Err(KoraError::InvalidAmount);
        }
        if contributed > total_pool || contributed > MAX_AMOUNT || total_pool > MAX_AMOUNT {
            return Err(KoraError::InvalidAmount);
        }
        let scaled = match contributed.checked_mul(BPS_SCALE as i128) {
            Some(scaled) => scaled,
            None => {
                return Err(KoraError::ArithmeticOverflow);
            },
        };
        proof {
            model::lemma_share_bounds(contributed, total_pool);
        }
        let share_bps: u32 = (scaled / total_pool) as u32;
        let position = Position {
            investor,
            invoice_id,
            contributed,
            share_bps,
            yield_claimed: 0,
        };
        let book = match self.positions.get(&invoice_id) {
            Some(book) => book,
            None => PositionBook::new(host),
        };
        self.write_positions(env, invoice_id, book.record(position));
        events::position_recorded(env, invoice_id, &caller, &investor, contributed);
        Ok(())
    }

    /// The SME repays the invoice, in one or more parts, whether or not the
    /// protocol is paused. Once the face value is reached the pool is closed
    /// and the investors are paid out.
    pub fn repay(
        &mut self,
        env: &mut Invocation<StoreOp<Vec<Position>>>,
        payer: Address,
        invoice_id: u64,
        token: Address,
        amount: i128,
    ) -> (r: Result<(), KoraError>)
        ensures
            model::repay(
                old(self)@,
                old(env).context,
                payer,
                invoice_id,
                token,
                amount,
            ).reached(r, final(self)@, *old(env), *final(env)),
    {
        env.require_auth(payer);
        Self::require_amount(amount)?;
        if self.repayment_locks.has(&invoice_id) {
            return Err(KoraError::Unauthorized);
        }
        let mut pool = self.get_pool(invoice_id)?;
        if pool.is_closed {
            return Err(KoraError::RepaymentAlreadyMade);
        }
        pool.repaid_amount = match pool.repaid_amount.checked_add(amount) {
            Some(repaid) => repaid,
            None => {
                return Err(KoraError::ArithmeticOverflow);
            },
        };
        let should_close = pool.repaid_amount >= pool.face_value;
        if !should_close {
            self.receive(env, payer, invoice_id, token, amount, pool);
            self.write(env, StoreOp::RemoveRepaymentLock(invoice_id));
            assert(self@.repayment_locks =~= old(self)@.repayment_locks);
            return Ok(());
        }
        pool.is_closed = true;
        let positions = self.get_positions(invoice_id);
        let payouts = Self::payouts(&positions, pool.repaid_amount)?;
        let invoice_nft = match self.invoice_nft {
            Some(invoice_nft) => invoice_nft,
            None => {
                return Err(KoraError::NotInitialized);
            },
        };
        self.receive(env, payer, invoice_id, token, amount, pool);
        Self::distribute_yield(env, invoice_id, token, pool.repaid_amount, &positions, &payouts);
        env.call(Call::SetRepaid { invoice_nft, caller: env.context.contract, invoice_id });
        self.write(env, StoreOp::RemoveRepaymentLock(invoice_id));
        assert(self@.repayment_locks =~= old(self)@.repayment_locks);
        Ok(())
    }

    /// Takes the lock, stores the pool and only then moves the payment.
    fn receive(
        &mut self,
        env: &mut Invocation<StoreOp<Vec<Position>>>,
        payer: Address,
        invoice_id: u64,
        token: Address,
        amount: i128,
        pool: Pool,
    )
        ensures
            final(self)@ == (model::State {
                pools: old(self)@.pools.insert(invoice_id, pool),
                repayment_locks: old(self)@.repayment_locks.insert(invoice_id, true),
                ..old(self)@
            }),
            final(env).context == old(env).context,
            final(env).log() == old(env).log() + model::receipt(
                old(env).context,
                payer,
                invoice_id,
                token,
                amount,
                pool,
            ),
    {
        self.write(env, StoreOp::SetRepaymentLock(invoice_id));
        self.write(env, StoreOp::SetPool(invoice_id, pool));
        env.call(
            Call::Transfer { token, from: payer, to: env.context.contract, amount },
        );
        events::repayment_made(env, invoice_id, &payer, amount);
        assert(env.log() =~= old(env).log() + model::receipt(
            old(env).context,
            payer,
            invoice_id,
            token,
            amount,
            pool,
        ));
    }

    /// What each position is paid out of `total_repaid`.
    fn payouts(positions: &Vec<Position>, total_repaid: i128) -> (r: Result<Vec<i128>, KoraError>)
        ensures
            match r {
                Ok(payouts) => {
                    &&& model::payable(positions@, total_repaid)
                    &&& payouts@ == model::payouts(positions@, total_repaid)
                },
                Err(e) => e == KoraError::ArithmeticOverflow && !model::payable(
                    positions@,
                    total_repaid,
                ),
            },
    {
        let mut payouts: Vec<i128> = Vec::new();
        let mut i: usize = 0;
        while i < positions.len()
            invariant
                i <= positions.len(),
                payouts@ =~= model::payouts(positions@, total_repaid).take(i as int),
                forall|j: int|
                    0 <= j < i ==> model::position_payable(#[trigger] positions@[j], total_repaid),
            decreases positions.len() - i,
        {
            let position = positions[i];
            let payout = match bps_of(total_repaid, position.share_bps) {
                Ok(payout) => payout,
                Err(e) => {
                    assert(!model::position_payable(positions@[i as int], total_repaid));
                    return Err(e);
                },
            };
            if payout.checked_sub(position.contributed).is_none() {
                assert(!model::position_payable(positions@[i as int], total_repaid));
                return Err(KoraError::ArithmeticOverflow);
            }
            payouts.push(payout);
            i = i + 1;
        }
        assert(model::payouts(positions@, total_repaid).take(i as int) =~= model::payouts(
            positions@,
            total_repaid,
        ));
        Ok(payouts)
    }

    /// Distributes a repayment proportionally to all investors.
    fn distribute_yield(
        env: &mut Invocation<StoreOp<Vec<Position>>>,
        invoice_id: u64,
        token: Address,
        total_repaid: i128,
        positions: &Vec<Position>,
        payouts: &Vec<i128>,
    )
        requires
            model::payable(positions@, total_repaid),
            payouts@ == model::payouts(positions@, total_repaid),
        ensures
            final(env).context == old(env).context,
            final(env).log() == old(env).log() + model::distribution(
                old(env).context,
                invoice_id,
                token,
                total_repaid,
                positions@,
            ),
    {
        let mut i: usize = 0;
        assert(env.log() =~= old(env).log() + model::distribution(
            env.context,
            invoice_id,
            token,
            total_repaid,
            positions@.take(0),
        ));
        while i < positions.len()
            invariant
                i <= positions.len(),
                payouts@ == model::payouts(positions@, total_repaid),
                model::payable(positions@, total_repaid),
                env.context == old(env).context,
                env.log() == old(env).log() + model::distribution(
                    env.context,
                    invoice_id,
                    token,
                    total_repaid,
                    positions@.take(i as int),
                ),
            decreases positions.len() - i,
        {
            let position = positions[i];
            let payout = payouts[i];
            assert(model::position_payable(positions@[i as int], total_repaid));
            let yield_amount: i128 = payout - position.contributed;
            env.call(
                Call::Transfer {
                    token,
                    from: env.context.contract,
                    to: position.investor,
                    amount: payout,
                },
            );
            events::yield_distributed(env, invoice_id, &position.investor, yield_amount);
            assert(positions@.take(i + 1).drop_last() =~= positions@.take(i as int));
            assert(env.log() =~= old(env).log() + model::distribution(
                env.context,
                invoice_id,
                token,
                total_repaid,
                positions@.take(i + 1),
            ));
            i = i + 1;
        }
        assert(positions@.take(i as int) =~= positions@);
    }

    /// Pays out whatever was repaid so far and marks the invoice as defaulted.
    /// Admin only.
    pub fn mark_default(
        &self,
        env: &mut Invocation<StoreOp<Vec<Position>>>,
        admin: Address,
        invoice_id: u64,
        token: Address,
    ) -> (r: Result<(), KoraError>)
        ensures
            model::mark_default(self@, old(env).context, admin, invoice_id, token).reached(
                r,
                self@,
                *old(env),
                *final(env),
            ),
    {
        env.require_auth(admin);
        self.require_admin(&admin)?;
        Self::require_not_paused(env)?;
        if self.repayment_locks.has(&invoice_id) {
            return Err(KoraError::Unauthorized);
        }
        let pool = self.get_pool(invoice_id)?;
        if pool.is_closed {
            return Err(KoraError::PoolAlreadyClosed);
        }
        let positions = self.get_positions(invoice_id);
        let recovered = pool.repaid_amount > 0;
        let payouts = if recovered {
            Self::payouts(&positions, pool.repaid_amount)?
        } else {
            Vec::new()
        };
        let invoice_nft = match self.invoice_nft {
            Some(invoice_nft) => invoice_nft,
            None => {
                return Err(KoraError::NotInitialized);
            },
        };
        if recovered {
            Self::distribute_yield(
                env,
                invoice_id,
                token,
                pool.repaid_amount,
                &positions,
                &payouts,
            );
        }
        env.call(Call::SetDefaulted { invoice_nft, caller: admin, invoice_id });
        events::invoice_defaulted(env, invoice_id, &admin);
        Ok(())
    }

    pub fn get_pool(&self, invoice_id: u64) -> (r: Result<Pool, KoraError>)
        ensures
            r == model::get_pool(self@, invoice_id),
    {
        self.pools.get(&invoice_id).ok_or(KoraError::PoolNotFound)
    }

    /// The positions in an invoice's pool, in the order of their investors.
    pub fn get_positions(&self, invoice_id: u64) -> (r: Vec<Position>)
        ensures
            r@ == model::get_positions(self@, invoice_id),
    {
        match self.positions.get(&invoice_id) {
            Some(book) => book.to_vec(),
            None => Vec::new(),
        }
    }

    fn require_amount(amount: i128) -> (r: Result<(), KoraError>)
        ensures
            r == if model::accepted_amount(amount) {
                Ok(())
            } else {
                Err::<(), KoraError>(KoraError::InvalidAmount)
            },
    {
        if amount <= 0 || amount > MAX_AMOUNT {
            return Err(KoraError::InvalidAmount);
        }
        Ok(())
    }

    fn require_admin(&self, caller: &Address) -> (r: Result<(), KoraError>)
        ensures
            r == match model::admin_error(self@, *caller) {
                Some(e) => Err::<(), KoraError>(e),
                None => Ok(()),
            },
    {
        match self.admin {
            None => Err(KoraError::NotInitialized),
            Some(admin) => {
                if admin != *caller {
                    return Err(KoraError::NotAdmin);
                }
                Ok(())
            },
        }
    }

    fn require_not_paused(env: &Invocation<StoreOp<Vec<Position>>>) -> (r: Result<(), KoraError>)
        ensures
            r == if env.context.protocol_paused {
                Err::<(), KoraError>(KoraError::ProtocolPaused)
            } else {
                Ok(())
            },
    {
        if env.context.protocol_paused {
            return Err(KoraError::ProtocolPaused);
        }
        Ok(())
    }

    /// Changes the positions in a pool, here and at the host.
    fn write_positions(
        &mut self,
        env: &mut Invocation<StoreOp<Vec<Position>>>,
        invoice_id: u64,
        book: PositionBook,
    )
        ensures
            final(self)@ == model::apply(old(self)@, StoreOp::SetPositions(invoice_id, book@)),
            final(env).context == old(env).context,
            final(env).log() == old(env).log().push(
                model::stored(StoreOp::SetPositions(invoice_id, book@)),
            ),
    {
        env.store(StoreOp::SetPositions(invoice_id, book.to_vec()));
        self.positions.set(invoice_id, book);
    }

    /// Changes any other entry, here and at the host.
    fn write(&mut self, env: &mut Invocation<StoreOp<Vec<Position>>>, op: StoreOp<Vec<Position>>)
        requires
            !(op is SetPositions),
        ensures
            final(self)@ == model::apply(old(self)@, op@),
            final(env).context == old(env).context,
            final(env).log() == old(env).log().push(model::stored(op@)),
    {
        match &op {
            StoreOp::SetAdmin(admin) => {
                self.admin = Some(*admin);
            },
            StoreOp::SetInvoiceNft(invoice_nft) => {
                self.invoice_nft = Some(*invoice_nft);
            },
            StoreOp::SetTreasury(treasury) => {
                self.treasury = Some(*treasury);
            },
            StoreOp::SetAccessControl(address) => {
                self.access_control = Some(*address);
            },
            StoreOp::SetLatePenaltyBps(bps) => {
                self.late_penalty_bps = Some(*bps);
            },
            StoreOp::SetPool(invoice_id, pool) => {
                self.pools.set(*invoice_id, *pool);
            },
            StoreOp::SetPositions(_, _) => {},
            StoreOp::SetRepaymentLock(invoice_id) => {
                self.repayment_locks.set(*invoice_id, true);
            },
            StoreOp::RemoveRepaymentLock(invoice_id) => {
                self.repayment_locks.remove(invoice_id);
            },
        }
        env.store(op);
    }
}

} // verus!
