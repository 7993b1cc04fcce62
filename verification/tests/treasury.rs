//! The fee rate, and withdrawals of what was collected.

use std::cell::{Cell, RefCell};

use kora::shared::errors::KoraError;
use kora::shared::events::{Event, Shape, Topic, Value};
use kora::shared::host::{Call, Context, Durability, Effect, Invocation, Step};
use kora::shared::types::{Address, AddressKind};
use kora::treasury::{
    DataKey, StoreOp, TreasuryContract, PERSISTENT_BUMP_AMOUNT, PERSISTENT_LIFETIME_THRESHOLD,
};

/// Hands out addresses that were not used before.
struct Ids {
    next: Cell<u128>,
}

impl Ids {
    fn new() -> Ids {
        Ids { next: Cell::new(1) }
    }

    fn generate(&self) -> Address {
        let n = self.next.get();
        self.next.set(n + 1);
        Address { kind: AddressKind::Account, hi: 7, lo: n }
    }
}

/// A deployed contract and its balance in every token. Each call is one
/// invocation; what the last one asked of the host is kept.
struct Client {
    contract: RefCell<TreasuryContract>,
    balance: Cell<i128>,
    steps: RefCell<Vec<Effect<StoreOp>>>,
}

impl Client {
    fn invoke<T>(&self, f: impl FnOnce(&mut TreasuryContract, &mut Invocation<StoreOp>) -> T) -> T {
        let mut env = Invocation::new(context());
        let result = f(&mut self.contract.borrow_mut(), &mut env);
        *self.steps.borrow_mut() = env.effects;
        result
    }

    fn steps(&self) -> Vec<Effect<StoreOp>> {
        self.steps.borrow().clone()
    }

    fn try_initialize(&self, admin: &Address, fee_bps: &u32) -> Result<(), KoraError> {
        self.invoke(|c, env| c.initialize(env, *admin, *fee_bps))
    }

    fn initialize(&self, admin: &Address, fee_bps: &u32) {
        self.try_initialize(admin, fee_bps).unwrap()
    }

    fn try_set_fee_bps(&self, admin: &Address, fee_bps: &u32) -> Result<(), KoraError> {
        self.invoke(|c, env| c.set_fee_bps(env, *admin, *fee_bps))
    }

    fn set_fee_bps(&self, admin: &Address, fee_bps: &u32) {
        self.try_set_fee_bps(admin, fee_bps).unwrap()
    }

    fn try_withdraw(
        &self,
        admin: &Address,
        token: &Address,
        recipient: &Address,
        amount: &i128,
    ) -> Result<(), KoraError> {
        let balance = self.balance.get();
        self.invoke(|c, env| c.withdraw(env, *admin, *token, *recipient, *amount, balance))
    }

    fn try_emergency_withdraw(
        &self,
        admin: &Address,
        token: &Address,
        recipient: &Address,
    ) -> Result<(), KoraError> {
        let balance = self.balance.get();
        self.invoke(|c, env| c.emergency_withdraw(env, *admin, *token, *recipient, balance))
    }

    fn get_fee_bps(&self) -> u32 {
        self.contract.borrow().get_fee_bps()
    }
}

fn context() -> Context {
    Context {
        timestamp: 1_700_000_000,
        sequence: 1,
        contract: Address { kind: AddressKind::Contract, hi: 1, lo: 1 },
        protocol_paused: false,
    }
}

/// A contract that is not initialized.
fn deploy_uninit() -> (Ids, Client) {
    let client = Client {
        contract: RefCell::new(TreasuryContract::new()),
        balance: Cell::new(0),
        steps: RefCell::new(Vec::new()),
    };
    (Ids::new(), client)
}

/// A contract that is initialized, with a fee of half a percent.
fn setup() -> (Ids, Address, Client) {
    let (env, client) = deploy_uninit();
    let admin = env.generate();
    client.initialize(&admin, &50u32);
    (env, admin, client)
}

#[test]
fn treasury_test_initialize_success() {
    let (env, client) = deploy_uninit();
    let admin = env.generate();
    let result = client.try_initialize(&admin, &50u32);
    assert!(result.is_ok());
    assert_eq!(client.get_fee_bps(), 50);
}

#[test]
fn lib_test_initialize_already_initialized() {
    let (_, admin, client) = setup();
    let result = client.try_initialize(&admin, &50u32);
    assert!(result.is_err());
}

#[test]
fn test_initialize_invalid_fee_bps() {
    let (env, client) = deploy_uninit();
    let admin = env.generate();
    let result = client.try_initialize(&admin, &10_001u32);
    assert!(result.is_err());
}

#[test]
fn test_set_fee_bps_success() {
    let (_, admin, client) = setup();
    client.set_fee_bps(&admin, &100u32);
    assert_eq!(client.get_fee_bps(), 100);
}

#[test]
fn test_set_fee_bps_requires_admin() {
    let (env, _, client) = setup();
    let non_admin = env.generate();
    let result = client.try_set_fee_bps(&non_admin, &100u32);
    assert!(result.is_err());
}

#[test]
fn test_set_fee_bps_invalid_bps_fails() {
    let (_, admin, client) = setup();
    let result = client.try_set_fee_bps(&admin, &10_001u32);
    assert!(result.is_err());
}

#[test]
fn test_set_fee_bps_zero_allowed() {
    let (_, admin, client) = setup();
    client.set_fee_bps(&admin, &0u32);
    assert_eq!(client.get_fee_bps(), 0);
}

#[test]
fn test_set_fee_bps_max_allowed() {
    let (_, admin, client) = setup();
    client.set_fee_bps(&admin, &10_000u32);
    assert_eq!(client.get_fee_bps(), 10_000);
}

#[test]
fn test_set_fee_bps_over_max_fails() {
    let (_, admin, client) = setup();
    let result = client.try_set_fee_bps(&admin, &10_001u32);
    assert!(result.is_err());
}

#[test]
fn test_set_fee_bps_multiple_updates() {
    let (_, admin, client) = setup();
    client.set_fee_bps(&admin, &100u32);
    assert_eq!(client.get_fee_bps(), 100);
    client.set_fee_bps(&admin, &200u32);
    assert_eq!(client.get_fee_bps(), 200);
    client.set_fee_bps(&admin, &50u32);
    assert_eq!(client.get_fee_bps(), 50);
}

#[test]
fn test_withdraw_requires_admin() {
    let (env, _, client) = setup();
    let non_admin = env.generate();
    let token = env.generate();
    let recipient = env.generate();
    let result = client.try_withdraw(&non_admin, &token, &recipient, &1_000_000i128);
    assert!(result.is_err());
}

#[test]
fn test_withdraw_zero_amount_fails() {
    let (env, admin, client) = setup();
    let token = env.generate();
    let recipient = env.generate();
    let result = client.try_withdraw(&admin, &token, &recipient, &0i128);
    assert!(result.is_err());
}

#[test]
fn test_withdraw_negative_amount_fails() {
    let (env, admin, client) = setup();
    let token = env.generate();
    let recipient = env.generate();
    let result = client.try_withdraw(&admin, &token, &recipient, &-1_000i128);
    assert!(result.is_err());
}

#[test]
fn test_emergency_withdraw_requires_admin() {
    let (env, _, client) = setup();
    let non_admin = env.generate();
    let token = env.generate();
    let recipient = env.generate();
    let result = client.try_emergency_withdraw(&non_admin, &token, &recipient);
    assert!(result.is_err());
}

#[test]
fn test_get_fee_bps_default_before_init() {
    let (_, client) = deploy_uninit();
    // Before initialization, falls back to default 50
    assert_eq!(client.get_fee_bps(), 50);
}

#[test]
fn test_lock_released_after_failed_withdraw() {
    let (env, admin, client) = setup();
    let token = env.generate();
    let recipient = env.generate();
    // Fails due to insufficient balance - lock must be released
    let _ = client.try_withdraw(&admin, &token, &recipient, &1_000i128);
    // Subsequent admin operation must succeed (lock not stuck)
    let result = client.try_set_fee_bps(&admin, &100u32);
    assert!(result.is_ok());
}

#[test]
fn test_lock_released_after_emergency_withdraw() {
    let (env, admin, client) = setup();
    let token = env.generate();
    let recipient = env.generate();
    let _ = client.try_emergency_withdraw(&admin, &token, &recipient);
    // Lock must be released regardless of balance
    let result = client.try_set_fee_bps(&admin, &100u32);
    assert!(result.is_ok());
}

#[test]
fn initialize_is_stored_and_published() {
    let (env, client) = deploy_uninit();
    let admin = env.generate();
    client.initialize(&admin, &75u32);
    assert_eq!(
        client.steps(),
        vec![
            Step::Store(StoreOp::SetAdmin(admin)),
            Step::Store(StoreOp::SetFeeBps(75)),
            Step::Publish(Event {
                topic: Topic::TresIni,
                shape: Shape::Tuple,
                data: vec![Value::Address(admin), Value::U32(75)],
            }),
        ]
    );
    assert_eq!(client.try_initialize(&admin, &75u32), Err(KoraError::AlreadyInitialized));
}

#[test]
fn new_fee_rate_is_stored_extended_and_published() {
    let (_, admin, client) = setup();
    client.set_fee_bps(&admin, &120u32);
    assert_eq!(
        client.steps(),
        vec![
            Step::RequireAuth(admin),
            Step::Store(StoreOp::SetFeeBps(120)),
            Step::Store(StoreOp::ExtendTtl {
                key: DataKey::FeeBps,
                threshold: PERSISTENT_LIFETIME_THRESHOLD,
                extend_to: PERSISTENT_BUMP_AMOUNT,
            }),
            Step::Publish(Event {
                topic: Topic::FeeUpd,
                shape: Shape::Tuple,
                data: vec![Value::Address(admin), Value::U32(50), Value::U32(120)],
            }),
        ]
    );
    assert_eq!(PERSISTENT_BUMP_AMOUNT, 535_680);
    assert_eq!(PERSISTENT_LIFETIME_THRESHOLD, 267_840);
}

#[test]
fn each_treasury_refusal_has_its_error() {
    let (env, client) = deploy_uninit();
    let admin = env.generate();
    let token = env.generate();
    assert_eq!(client.try_set_fee_bps(&admin, &1), Err(KoraError::NotInitialized));
    assert_eq!(client.try_initialize(&admin, &10_001), Err(KoraError::InvalidFeeRate));
    client.initialize(&admin, &50);
    assert_eq!(client.try_set_fee_bps(&token, &1), Err(KoraError::NotAdmin));
    assert_eq!(client.try_set_fee_bps(&admin, &10_001), Err(KoraError::InvalidFeeRate));
    assert_eq!(client.try_withdraw(&admin, &token, &admin, &0), Err(KoraError::InvalidAmount));
    assert_eq!(
        client.try_withdraw(&admin, &token, &admin, &1),
        Err(KoraError::InsufficientPoolBalance)
    );
    client.contract.borrow_mut().locked = true;
    assert_eq!(client.try_withdraw(&admin, &token, &admin, &1), Err(KoraError::Reentrancy));
    assert_eq!(client.try_emergency_withdraw(&admin, &token, &admin), Err(KoraError::Reentrancy));
}

#[test]
fn withdrawal_pays_the_amount_under_the_lock() {
    let (env, admin, client) = setup();
    let token = env.generate();
    let recipient = env.generate();
    client.balance.set(1_000);
    assert_eq!(client.try_withdraw(&admin, &token, &recipient, &1_000), Ok(()));
    assert_eq!(
        client.steps(),
        vec![
            Step::RequireAuth(admin),
            Step::Store(StoreOp::SetWithdrawalLock(true)),
            Step::Call(Call::Transfer {
                token,
                from: context().contract,
                to: recipient,
                amount: 1_000,
            }),
            Step::Store(StoreOp::SetWithdrawalLock(false)),
            Step::Publish(Event {
                topic: Topic::FeeWth,
                shape: Shape::Tuple,
                data: vec![Value::Address(token), Value::I128(1_000)],
            }),
        ]
    );
    assert!(!client.contract.borrow().locked);
}

#[test]
fn uncovered_withdrawal_pays_nothing() {
    let (env, admin, client) = setup();
    let token = env.generate();
    client.balance.set(999);
    assert_eq!(
        client.try_withdraw(&admin, &token, &admin, &1_000),
        Err(KoraError::InsufficientPoolBalance)
    );
    assert_eq!(
        client.steps(),
        vec![
            Step::RequireAuth(admin),
            Step::Store(StoreOp::SetWithdrawalLock(true)),
            Step::Store(StoreOp::SetWithdrawalLock(false)),
        ]
    );
    assert!(!client.contract.borrow().locked);
}

#[test]
fn emergency_pays_the_whole_balance() {
    let (env, admin, client) = setup();
    let token = env.generate();
    let recipient = env.generate();
    client.balance.set(77);
    assert_eq!(client.try_emergency_withdraw(&admin, &token, &recipient), Ok(()));
    let paid =
        Call::Transfer { token, from: context().contract, to: recipient, amount: 77 };
    assert_eq!(client.steps()[2], Step::Call(paid));
    assert_eq!(
        client.steps()[4],
        Step::Publish(Event {
            topic: Topic::EmrgWth,
            shape: Shape::Tuple,
            data: vec![Value::Address(admin), Value::Address(token), Value::I128(77)],
        })
    );
    client.balance.set(0);
    assert_eq!(client.try_emergency_withdraw(&admin, &token, &recipient), Ok(()));
    assert_eq!(client.steps().len(), 3);
}

#[test]
fn withdrawal_can_be_taken_in_two_parts() {
    let (env, admin, client) = setup();
    let token = env.generate();
    let begun = client.invoke(|c, env| c.begin_withdraw(env, admin, 5));
    assert_eq!(begun, Ok(()));
    assert!(client.contract.borrow().locked);
    assert_eq!(client.try_withdraw(&admin, &token, &admin, &1), Err(KoraError::Reentrancy));
    let ended = client.invoke(|c, env| c.complete_withdraw(env, token, admin, 5, 5));
    assert_eq!(ended, Ok(()));
    assert!(!client.contract.borrow().locked);
}

#[test]
fn treasury_entries_are_persistent() {
    let (env, _, _) = setup();
    assert_eq!(DataKey::Admin.durability(), Durability::Persistent);
    assert_eq!(DataKey::FeeBps.durability(), Durability::Persistent);
    assert_eq!(DataKey::Collected(env.generate()).durability(), Durability::Persistent);
    assert_eq!(DataKey::WithdrawalLock.durability(), Durability::Persistent);
}
