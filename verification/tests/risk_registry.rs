//! Verifiers, the profiles of SMEs and the scores of debtors.

use std::cell::{Cell, RefCell};

use kora::risk_registry::{
    DataKey, RiskRegistryContract, StoreOp, PERSISTENT_TTL_BUMP, PERSISTENT_TTL_THRESHOLD,
};
use kora::shared::errors::KoraError;
use kora::shared::events::{Event, Shape, Topic, Value};
use kora::shared::host::{Context, Durability, Effect, Invocation, Step};
use kora::shared::types::{Address, AddressKind, SmeProfile};

type Op = StoreOp<Vec<u8>>;

/// Hands out addresses that were not used before.
struct Ids {
    next: Cell<u128>,
}

impl Ids {
    fn new() -> Ids {
        Ids { next: Cell::new(1) }
    }

    fn generate(&self) -> Address {
        let n = self.next.get();
        self.next.set(n + 1);
        Address { kind: AddressKind::Account, hi: 7, lo: n }
    }
}

/// A deployed contract. Each call is one invocation; what the last one asked of
/// the host is kept.
struct Client {
    contract: RefCell<RiskRegistryContract>,
    steps: RefCell<Vec<Effect<Op>>>,
}

impl Client {
    fn invoke<T>(&self, f: impl FnOnce(&mut RiskRegistryContract, &mut Invocation<Op>) -> T) -> T {
        let mut env = Invocation::new(context());
        let result = f(&mut self.contract.borrow_mut(), &mut env);
        *self.steps.borrow_mut() = env.effects;
        result
    }

    fn steps(&self) -> Vec<Effect<Op>> {
        self.steps.borrow().clone()
    }

    fn try_initialize(&self, admin: &Address, invoice_nft: &Address) -> Result<(), KoraError> {
        self.invoke(|c, env| c.initialize(env, *admin, *invoice_nft))
    }

    fn initialize(&self, admin: &Address, invoice_nft: &Address) {
        self.try_initialize(admin, invoice_nft).unwrap()
    }

    fn try_transfer_admin(
        &self,
        current_admin: &Address,
        new_admin: &Address,
    ) -> Result<(), KoraError> {
        self.invoke(|c, env| c.transfer_admin(env, *current_admin, *new_admin))
    }

    fn transfer_admin(&self, current_admin: &Address, new_admin: &Address) {
        self.try_transfer_admin(current_admin, new_admin).unwrap()
    }

    fn try_add_verifier(&self, admin: &Address, verifier: &Address) -> Result<(), KoraError> {
        self.invoke(|c, env| c.add_verifier(env, *admin, *verifier))
    }

    fn add_verifier(&self, admin: &Address, verifier: &Address) {
        self.try_add_verifier(admin, verifier).unwrap()
    }

    fn try_remove_verifier(&self, admin: &Address, verifier: &Address) -> Result<(), KoraError> {
        self.invoke(|c, env| c.remove_verifier(env, *admin, *verifier))
    }

    fn try_register_sme(
        &self,
        verifier: &Address,
        sme: &Address,
        risk_score: &u32,
    ) -> Result<(), KoraError> {
        self.invoke(|c, env| c.register_sme(env, *verifier, *sme, *risk_score))
    }

    fn register_sme(&self, verifier: &Address, sme: &Address, risk_score: &u32) {
        self.try_register_sme(verifier, sme, risk_score).unwrap()
    }

    fn try_update_sme_score(
        &self,
        verifier: &Address,
        sme: &Address,
        new_score: &u32,
    ) -> Result<(), KoraError> {
        self.invoke(|c, env| c.update_sme_score(env, *verifier, *sme, *new_score))
    }

    fn update_sme_score(&self, verifier: &Address, sme: &Address, new_score: &u32) {
        self.try_update_sme_score(verifier, sme, new_score).unwrap()
    }

    fn try_increment_invoice_count(
        &self,
        caller: &Address,
        sme: &Address,
    ) -> Result<(), KoraError> {
        self.invoke(|c, env| c.increment_invoice_count(env, *caller, *sme))
    }

    fn increment_invoice_count(&self, caller: &Address, sme: &Address) {
        self.try_increment_invoice_count(caller, sme).unwrap()
    }

    fn try_record_default(&self, admin: &Address, sme: &Address) -> Result<(), KoraError> {
        self.invoke(|c, env| c.record_default(env, *admin, *sme))
    }

    fn record_default(&self, admin: &Address, sme: &Address) {
        self.try_record_default(admin, sme).unwrap()
    }

    fn try_set_debtor_score(
        &self,
        verifier: &Address,
        debtor_hash: &Vec<u8>,
        score: &u32,
    ) -> Result<(), KoraError> {
        self.invoke(|c, env| c.set_debtor_score(env, *verifier, debtor_hash.clone(), *score))
    }

    fn set_debtor_score(&self, verifier: &Address, debtor_hash: &Vec<u8>, score: &u32) {
        self.try_set_debtor_score(verifier, debtor_hash, score).unwrap()
    }

    fn try_get_sme_profile(&self, sme: &Address) -> Result<SmeProfile, KoraError> {
        self.contract.borrow().get_sme_profile(*sme)
    }

    fn get_sme_profile(&self, sme: &Address) -> SmeProfile {
        self.try_get_sme_profile(sme).unwrap()
    }

    fn is_verified_sme(&self, sme: &Address) -> bool {
        self.contract.borrow().is_verified_sme(*sme)
    }

    fn is_verifier(&self, address: &Address) -> bool {
        self.contract.borrow().is_verifier(*address)
    }

    fn try_get_debtor_score(&self, debtor_hash: &Vec<u8>) -> Result<u32, KoraError> {
        self.contract.borrow().get_debtor_score(debtor_hash)
    }

    fn get_debtor_score(&self, debtor_hash: &Vec<u8>) -> u32 {
        self.try_get_debtor_score(debtor_hash).unwrap()
    }

    fn get_admin(&self) -> Address {
        self.contract.borrow().get_admin().unwrap()
    }
}

fn context() -> Context {
    Context {
        timestamp: 1_700_000_000,
        sequence: 1,
        contract: Address { kind: AddressKind::Contract, hi: 1, lo: 1 },
        protocol_paused: false,
    }
}

/// A contract that is not initialized.
fn deploy_uninit() -> (Ids, Client) {
    let client = Client {
        contract: RefCell::new(RiskRegistryContract::new()),
        steps: RefCell::new(Vec::new()),
    };
    (Ids::new(), client)
}

/// A contract that is initialized, its admin and its invoice contract.
fn setup() -> (Ids, Address, Address, Client) {
    let (env, client) = deploy_uninit();
    let admin = env.generate();
    let invoice_nft = env.generate();
    client.initialize(&admin, &invoice_nft);
    (env, admin, invoice_nft, client)
}

#[test]
fn risk_registry_test_initialize_success() {
    let (env, client) = deploy_uninit();
    let admin = env.generate();
    let invoice_nft = env.generate();
    assert!(client.try_initialize(&admin, &invoice_nft).is_ok());
}

#[test]
fn risk_registry_test_initialize_already_initialized() {
    let (_, admin, invoice_nft, client) = setup();
    assert!(client.try_initialize(&admin, &invoice_nft).is_err());
}

#[test]
fn test_add_verifier_success() {
    let (env, admin, _, client) = setup();
    let verifier = env.generate();
    assert!(client.try_add_verifier(&admin, &verifier).is_ok());
    assert!(client.is_verifier(&verifier));
}

#[test]
fn test_add_verifier_not_admin() {
    let (env, _, _, client) = setup();
    let stranger = env.generate();
    let verifier = env.generate();
    assert!(client.try_add_verifier(&stranger, &verifier).is_err());
}

#[test]
fn test_remove_verifier_success() {
    let (env, admin, _, client) = setup();
    let verifier = env.generate();
    client.add_verifier(&admin, &verifier);
    assert!(client.is_verifier(&verifier));
    assert!(client.try_remove_verifier(&admin, &verifier).is_ok());
    assert!(!client.is_verifier(&verifier));
}

#[test]
fn test_remove_verifier_not_admin() {
    let (env, admin, _, client) = setup();
    let verifier = env.generate();
    let stranger = env.generate();
    client.add_verifier(&admin, &verifier);
    assert!(client.try_remove_verifier(&stranger, &verifier).is_err());
}

#[test]
fn test_remove_verifier_not_registered() {
    let (env, admin, _, client) = setup();
    let verifier = env.generate();
    // Removing a verifier that was never added should fail
    assert!(client.try_remove_verifier(&admin, &verifier).is_err());
}

#[test]
fn test_multiple_verifiers() {
    let (env, admin, _, client) = setup();
    let v1 = env.generate();
    let v2 = env.generate();
    let sme1 = env.generate();
    let sme2 = env.generate();

    client.add_verifier(&admin, &v1);
    client.add_verifier(&admin, &v2);
    client.register_sme(&v1, &sme1, &30u32);
    client.register_sme(&v2, &sme2, &60u32);

    assert_eq!(client.get_sme_profile(&sme1).risk_score, 30);
    assert_eq!(client.get_sme_profile(&sme2).risk_score, 60);
    assert_eq!(client.get_sme_profile(&sme1).verifier, v1);
    assert_eq!(client.get_sme_profile(&sme2).verifier, v2);
}

#[test]
fn test_register_sme_flow() {
    let (env, admin, _, client) = setup();
    let verifier = env.generate();
    let sme = env.generate();

    client.add_verifier(&admin, &verifier);
    client.register_sme(&verifier, &sme, &35u32);

    assert!(client.is_verified_sme(&sme));
    let profile = client.get_sme_profile(&sme);
    assert_eq!(profile.risk_score, 35);
    assert_eq!(profile.defaults, 0);
    assert_eq!(profile.total_invoices, 0);
    assert!(profile.verified);
    assert_eq!(profile.verifier, verifier);
}

#[test]
fn test_register_sme_duplicate_rejected() {
    let (env, admin, _, client) = setup();
    let verifier = env.generate();
    let sme = env.generate();

    client.add_verifier(&admin, &verifier);
    client.register_sme(&verifier, &sme, &35u32);
    // Second registration of the same SME must fail
    assert!(client.try_register_sme(&verifier, &sme, &50u32).is_err());
}

#[test]
fn test_register_sme_unverified_verifier() {
    let (env, _, _, client) = setup();
    let stranger = env.generate();
    let sme = env.generate();
    assert!(client.try_register_sme(&stranger, &sme, &10u32).is_err());
}

#[test]
fn test_register_sme_invalid_risk_score() {
    let (env, admin, _, client) = setup();
    let verifier = env.generate();
    let sme = env.generate();
    client.add_verifier(&admin, &verifier);
    assert!(client.try_register_sme(&verifier, &sme, &101u32).is_err());
}

#[test]
fn test_register_sme_already_registered() {
    // Re-registration must fail to protect existing defaults/invoice counts
    let (env, admin, _, client) = setup();
    let verifier = env.generate();
    let sme = env.generate();
    client.add_verifier(&admin, &verifier);
    client.register_sme(&verifier, &sme, &35u32);
    assert!(client.try_register_sme(&verifier, &sme, &50u32).is_err());
}

#[test]
fn test_register_sme_preserves_history_on_re_registration_attempt() {
    // After a failed re-registration, original data must be intact
    let (env, admin, _, client) = setup();
    let verifier = env.generate();
    let sme = env.generate();
    client.add_verifier(&admin, &verifier);
    client.register_sme(&verifier, &sme, &35u32);
    // Attempt re-registration
    let _ = client.try_register_sme(&verifier, &sme, &99u32);
    let profile = client.get_sme_profile(&sme);
    assert_eq!(profile.risk_score, 35); // unchanged
}

#[test]
fn test_update_sme_score_success() {
    let (env, admin, _, client) = setup();
    let verifier = env.generate();
    let sme = env.generate();
    client.add_verifier(&admin, &verifier);
    client.register_sme(&verifier, &sme, &35u32);
    client.update_sme_score(&verifier, &sme, &50u32);
    assert_eq!(client.get_sme_profile(&sme).risk_score, 50);
}

#[test]
fn test_update_sme_score_not_registered() {
    let (env, admin, _, client) = setup();
    let verifier = env.generate();
    let sme = env.generate();
    client.add_verifier(&admin, &verifier);
    assert!(client.try_update_sme_score(&verifier, &sme, &50u32).is_err());
}

#[test]
fn test_update_sme_score_invalid() {
    let (env, admin, _, client) = setup();
    let verifier = env.generate();
    let sme = env.generate();
    client.add_verifier(&admin, &verifier);
    client.register_sme(&verifier, &sme, &35u32);
    assert!(client.try_update_sme_score(&verifier, &sme, &101u32).is_err());
}

#[test]
fn test_update_sme_score_boundary_values() {
    let (env, admin, _, client) = setup();
    let verifier = env.generate();
    let sme = env.generate();
    client.add_verifier(&admin, &verifier);
    client.register_sme(&verifier, &sme, &50u32);

    client.update_sme_score(&verifier, &sme, &0u32);
    assert_eq!(client.get_sme_profile(&sme).risk_score, 0);

    client.update_sme_score(&verifier, &sme, &100u32);
    assert_eq!(client.get_sme_profile(&sme).risk_score, 100);
}

#[test]
fn test_increment_invoice_count() {
    let (env, admin, invoice_nft, client) = setup();
    let verifier = env.generate();
    let sme = env.generate();
    client.add_verifier(&admin, &verifier);
    client.register_sme(&verifier, &sme, &35u32);

    assert_eq!(client.get_sme_profile(&sme).total_invoices, 0);
    client.increment_invoice_count(&invoice_nft, &sme);
    assert_eq!(client.get_sme_profile(&sme).total_invoices, 1);
}

#[test]
fn test_increment_invoice_count_multiple() {
    let (env, admin, invoice_nft, client) = setup();
    let verifier = env.generate();
    let sme = env.generate();
    client.add_verifier(&admin, &verifier);
    client.register_sme(&verifier, &sme, &35u32);

    for i in 1u32..=5 {
        client.increment_invoice_count(&invoice_nft, &sme);
        assert_eq!(client.get_sme_profile(&sme).total_invoices, i);
    }
}

#[test]
fn test_increment_invoice_count_unauthorized_caller() {
    // Only the invoice_nft address may call this
    let (env, admin, _, client) = setup();
    let verifier = env.generate();
    let sme = env.generate();
    let stranger = env.generate();
    client.add_verifier(&admin, &verifier);
    client.register_sme(&verifier, &sme, &35u32);
    assert!(client.try_increment_invoice_count(&stranger, &sme).is_err());
}

#[test]
fn test_increment_invoice_count_sme_not_registered() {
    let (env, _, invoice_nft, client) = setup();
    let sme = env.generate();
    assert!(client.try_increment_invoice_count(&invoice_nft, &sme).is_err());
}

#[test]
fn test_record_default() {
    let (env, admin, _, client) = setup();
    let verifier = env.generate();
    let sme = env.generate();
    client.add_verifier(&admin, &verifier);
    client.register_sme(&verifier, &sme, &35u32);

    assert_eq!(client.get_sme_profile(&sme).defaults, 0);
    client.record_default(&admin, &sme);
    assert_eq!(client.get_sme_profile(&sme).defaults, 1);
}

#[test]
fn test_record_default_not_admin() {
    let (env, admin, _, client) = setup();
    let verifier = env.generate();
    let sme = env.generate();
    let stranger = env.generate();
    client.add_verifier(&admin, &verifier);
    client.register_sme(&verifier, &sme, &35u32);
    assert!(client.try_record_default(&stranger, &sme).is_err());
}

#[test]
fn test_record_default_sme_not_registered() {
    let (env, admin, _, client) = setup();
    let sme = env.generate();
    assert!(client.try_record_default(&admin, &sme).is_err());
}

#[test]
fn test_record_multiple_defaults() {
    let (env, admin, _, client) = setup();
    let verifier = env.generate();
    let sme = env.generate();
    client.add_verifier(&admin, &verifier);
    client.register_sme(&verifier, &sme, &35u32);

    client.record_default(&admin, &sme);
    client.record_default(&admin, &sme);
    client.record_default(&admin, &sme);
    assert_eq!(client.get_sme_profile(&sme).defaults, 3);
}

#[test]
fn test_set_debtor_score() {
    let (env, admin, _, client) = setup();
    let verifier = env.generate();
    let debtor_hash = [0xABu8; 32].to_vec();
    client.add_verifier(&admin, &verifier);
    client.set_debtor_score(&verifier, &debtor_hash, &45u32);
    assert_eq!(client.get_debtor_score(&debtor_hash), 45u32);
}

#[test]
fn test_set_debtor_score_invalid_score() {
    let (env, admin, _, client) = setup();
    let verifier = env.generate();
    let debtor_hash = [0xABu8; 32].to_vec();
    client.add_verifier(&admin, &verifier);
    assert!(client.try_set_debtor_score(&verifier, &debtor_hash, &101u32).is_err());
}

#[test]
fn test_set_debtor_score_empty_hash() {
    let (env, admin, _, client) = setup();
    let verifier = env.generate();
    let empty_hash = Vec::new();
    client.add_verifier(&admin, &verifier);
    assert!(client.try_set_debtor_score(&verifier, &empty_hash, &50u32).is_err());
}

#[test]
fn test_set_debtor_score_not_verifier() {
    let (env, _, _, client) = setup();
    let stranger = env.generate();
    let debtor_hash = [0xABu8; 32].to_vec();
    assert!(client.try_set_debtor_score(&stranger, &debtor_hash, &50u32).is_err());
}

#[test]
fn test_get_debtor_score_not_found() {
    let (_, _, _, client) = setup();
    let debtor_hash = [0xCDu8; 32].to_vec();
    assert!(client.try_get_debtor_score(&debtor_hash).is_err());
}

#[test]
fn test_debtor_score_boundary_values() {
    let (env, admin, _, client) = setup();
    let verifier = env.generate();
    client.add_verifier(&admin, &verifier);

    let hash0 = [0x01u8; 32].to_vec();
    client.set_debtor_score(&verifier, &hash0, &0u32);
    assert_eq!(client.get_debtor_score(&hash0), 0u32);

    let hash100 = [0x02u8; 32].to_vec();
    client.set_debtor_score(&verifier, &hash100, &100u32);
    assert_eq!(client.get_debtor_score(&hash100), 100u32);

    let hash_invalid = [0x03u8; 32].to_vec();
    assert!(client.try_set_debtor_score(&verifier, &hash_invalid, &101u32).is_err());
}

#[test]
fn test_get_sme_profile_not_found() {
    let (env, _, _, client) = setup();
    let sme = env.generate();
    assert!(client.try_get_sme_profile(&sme).is_err());
}

#[test]
fn test_is_verified_sme_false_for_unregistered() {
    let (env, _, _, client) = setup();
    let sme = env.generate();
    assert!(!client.is_verified_sme(&sme));
}

#[test]
fn test_risk_score_boundary_values() {
    let (env, admin, _, client) = setup();
    let verifier = env.generate();
    client.add_verifier(&admin, &verifier);

    let sme0 = env.generate();
    client.register_sme(&verifier, &sme0, &0u32);
    assert_eq!(client.get_sme_profile(&sme0).risk_score, 0);

    let sme100 = env.generate();
    client.register_sme(&verifier, &sme100, &100u32);
    assert_eq!(client.get_sme_profile(&sme100).risk_score, 100);

    let sme_invalid = env.generate();
    assert!(client.try_register_sme(&verifier, &sme_invalid, &101u32).is_err());
}

#[test]
fn risk_registry_test_transfer_admin_success() {
    let (env, admin, _, client) = setup();
    let new_admin = env.generate();

    client.transfer_admin(&admin, &new_admin);
    assert_eq!(client.get_admin(), new_admin);
}

#[test]
fn test_transfer_admin_same_address_rejected() {
    let (_, admin, _, client) = setup();
    assert!(client.try_transfer_admin(&admin, &admin).is_err());
}

#[test]
fn test_transfer_admin_non_admin_rejected() {
    let (env, _, _, client) = setup();
    let stranger = env.generate();
    let new_admin = env.generate();
    assert!(client.try_transfer_admin(&stranger, &new_admin).is_err());
}

fn bumped(key: DataKey<Vec<u8>>) -> Effect<Op> {
    Step::Store(StoreOp::ExtendTtl {
        key,
        threshold: PERSISTENT_TTL_THRESHOLD,
        extend_to: PERSISTENT_TTL_BUMP,
    })
}

#[test]
fn verifier_is_stored_extended_and_published() {
    let (env, admin, _, client) = setup();
    let verifier = env.generate();
    client.add_verifier(&admin, &verifier);
    assert_eq!(
        client.steps(),
        vec![
            Step::RequireAuth(admin),
            Step::Store(StoreOp::SetGuard(true)),
            Step::Store(StoreOp::SetVerifier(verifier, true)),
            bumped(DataKey::Verifier(verifier)),
            Step::Publish(Event {
                topic: Topic::VrfAdd,
                shape: Shape::Tuple,
                data: vec![
                    Value::Address(admin),
                    Value::Address(verifier),
                    Value::U64(1_700_000_000),
                ],
            }),
            Step::Store(StoreOp::SetGuard(false)),
        ]
    );
    assert_eq!(client.try_remove_verifier(&admin, &verifier), Ok(()));
    assert_eq!(client.steps()[1], Step::Store(StoreOp::RemoveVerifier(verifier)));
    assert_eq!(client.steps().len(), 3);
    assert_eq!(client.try_remove_verifier(&admin, &verifier), Err(KoraError::NotVerifier));
}

#[test]
fn sme_is_stored_extended_and_published() {
    let (env, admin, _, client) = setup();
    let verifier = env.generate();
    let sme = env.generate();
    client.add_verifier(&admin, &verifier);
    client.register_sme(&verifier, &sme, &35u32);
    let profile = SmeProfile {
        address: sme,
        verified: true,
        verifier,
        risk_score: 35,
        total_invoices: 0,
        defaults: 0,
        registered_at: 1_700_000_000,
    };
    assert_eq!(client.get_sme_profile(&sme), profile);
    assert_eq!(
        client.steps(),
        vec![
            Step::RequireAuth(verifier),
            Step::Store(StoreOp::SetSmeProfile(sme, profile)),
            bumped(DataKey::SmeProfile(sme)),
            Step::Publish(Event {
                topic: Topic::SmeReg,
                shape: Shape::Tuple,
                data: vec![
                    Value::Address(verifier),
                    Value::Address(sme),
                    Value::U32(35),
                    Value::U64(1_700_000_000),
                ],
            }),
        ]
    );
}

#[test]
fn debtor_score_is_published_with_its_hash() {
    let (env, admin, _, client) = setup();
    let verifier = env.generate();
    client.add_verifier(&admin, &verifier);
    let hash = vec![1u8, 2, 3];
    client.set_debtor_score(&verifier, &hash, &45u32);
    assert_eq!(
        client.steps()[3],
        Step::Publish(Event {
            topic: Topic::DbtScr,
            shape: Shape::Tuple,
            data: vec![
                Value::Address(verifier),
                Value::Bytes(hash.clone()),
                Value::U32(45),
                Value::U64(1_700_000_000),
            ],
        })
    );
    client.set_debtor_score(&verifier, &vec![1u8, 2], &46u32);
    client.set_debtor_score(&verifier, &hash, &47u32);
    assert_eq!(client.get_debtor_score(&hash), 47);
    assert_eq!(client.get_debtor_score(&vec![1u8, 2]), 46);
}

#[test]
fn each_registry_refusal_has_its_error() {
    let (env, client) = deploy_uninit();
    let admin = env.generate();
    let nft = env.generate();
    let sme = env.generate();
    let verifier = env.generate();
    assert_eq!(client.try_add_verifier(&admin, &sme), Err(KoraError::NotInitialized));
    assert_eq!(client.try_increment_invoice_count(&nft, &sme), Err(KoraError::NotInitialized));
    client.initialize(&admin, &nft);
    assert_eq!(client.try_initialize(&admin, &nft), Err(KoraError::AlreadyInitialized));
    assert_eq!(client.try_add_verifier(&sme, &sme), Err(KoraError::NotAdmin));
    assert_eq!(client.try_transfer_admin(&admin, &admin), Err(KoraError::InvalidAddress));
    assert_eq!(client.try_transfer_admin(&sme, &admin), Err(KoraError::NotAdmin));
    assert_eq!(client.try_register_sme(&verifier, &sme, &1), Err(KoraError::NotVerifier));
    client.add_verifier(&admin, &verifier);
    assert_eq!(client.try_register_sme(&verifier, &sme, &101), Err(KoraError::InvalidRiskScore));
    assert_eq!(
        client.try_update_sme_score(&verifier, &sme, &1),
        Err(KoraError::SMENotRegistered)
    );
    assert_eq!(client.try_record_default(&admin, &sme), Err(KoraError::SMENotRegistered));
    assert_eq!(client.try_get_sme_profile(&sme), Err(KoraError::SMENotRegistered));
    client.register_sme(&verifier, &sme, &1);
    assert_eq!(client.try_register_sme(&verifier, &sme, &1), Err(KoraError::AlreadyInitialized));
    assert_eq!(client.try_increment_invoice_count(&sme, &sme), Err(KoraError::Unauthorized));
    assert_eq!(
        client.try_set_debtor_score(&verifier, &Vec::new(), &1),
        Err(KoraError::EmptyBytes)
    );
    assert_eq!(
        client.try_set_debtor_score(&verifier, &vec![1], &101),
        Err(KoraError::InvalidRiskScore)
    );
    assert_eq!(client.try_get_debtor_score(&vec![1]), Err(KoraError::DebtorNotRegistered));
    client.contract.borrow_mut().guard.entered = true;
    assert_eq!(client.try_add_verifier(&admin, &sme), Err(KoraError::Reentrancy));
    assert_eq!(client.try_record_default(&admin, &sme), Err(KoraError::Reentrancy));
    assert_eq!(client.try_update_sme_score(&verifier, &sme, &1), Err(KoraError::Reentrancy));
}

#[test]
fn counts_stop_at_their_limit() {
    let (env, admin, nft, client) = setup();
    let verifier = env.generate();
    let sme = env.generate();
    client.add_verifier(&admin, &verifier);
    client.register_sme(&verifier, &sme, &1);
    let full = SmeProfile {
        total_invoices: u32::MAX,
        defaults: u32::MAX,
        ..client.get_sme_profile(&sme)
    };
    client.contract.borrow_mut().profiles.set(sme, full);
    assert_eq!(client.try_increment_invoice_count(&nft, &sme), Err(KoraError::ArithmeticOverflow));
    assert_eq!(client.try_record_default(&admin, &sme), Err(KoraError::ArithmeticOverflow));
    assert_eq!(client.get_sme_profile(&sme), full);
}

#[test]
fn records_do_not_touch_each_other() {
    let (env, admin, nft, client) = setup();
    let verifier = env.generate();
    let sme = env.generate();
    let other = env.generate();
    client.add_verifier(&admin, &verifier);
    client.register_sme(&verifier, &sme, &10);
    client.register_sme(&verifier, &other, &20);
    client.increment_invoice_count(&nft, &sme);
    client.record_default(&admin, &sme);
    client.update_sme_score(&verifier, &sme, &90);
    let profile = client.get_sme_profile(&sme);
    assert_eq!((profile.risk_score, profile.total_invoices, profile.defaults), (90, 1, 1));
    let profile = client.get_sme_profile(&other);
    assert_eq!((profile.risk_score, profile.total_invoices, profile.defaults), (20, 0, 0));
}

#[test]
fn removed_verifier_leaves_its_records() {
    let (env, admin, _, client) = setup();
    let verifier = env.generate();
    let sme = env.generate();
    client.add_verifier(&admin, &verifier);
    client.register_sme(&verifier, &sme, &10);
    client.try_remove_verifier(&admin, &verifier).unwrap();
    assert!(client.is_verified_sme(&sme));
    assert_eq!(client.try_update_sme_score(&verifier, &sme, &1), Err(KoraError::NotVerifier));
}

#[test]
fn registry_goes_to_the_new_admin() {
    let (env, admin, _, client) = setup();
    let new_admin = env.generate();
    let verifier = env.generate();
    client.transfer_admin(&admin, &new_admin);
    assert_eq!(client.try_add_verifier(&admin, &verifier), Err(KoraError::NotAdmin));
    client.add_verifier(&new_admin, &verifier);
    assert!(client.is_verifier(&verifier));
}

#[test]
fn registry_entries_are_persistent() {
    let admin: DataKey<Vec<u8>> = DataKey::Admin;
    assert_eq!(admin.durability(), Durability::Instance);
    let score: DataKey<Vec<u8>> = DataKey::DebtorScore(vec![1]);
    assert_eq!(score.durability(), Durability::Persistent);
}
