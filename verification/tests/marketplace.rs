//! Listing, funding and cancelling.

use std::cell::{Cell, RefCell};

use kora::marketplace::{DataKey, MarketplaceContract, StoreOp};
use kora::shared::errors::KoraError;
use kora::shared::events::{Event, Shape, Topic, Value};
use kora::shared::host::{Call, Context, Durability, Effect, Invocation, Step};
use kora::shared::types::{Address, AddressKind, Listing};

/// Hands out addresses that were not used before.
struct Ids {
    next: Cell<u128>,
}

impl Ids {
    fn new() -> Ids {
        Ids { next: Cell::new(1) }
    }

    fn generate(&self) -> Address {
        let n = self.next.get();
        self.next.set(n + 1);
        Address { kind: AddressKind::Account, hi: 7, lo: n }
    }
}

/// A deployed contract. Each call is one invocation; what the last one asked of
/// the host is kept.
struct Client {
    contract: RefCell<MarketplaceContract>,
    timestamp: Cell<u64>,
    paused: Cell<bool>,
    steps: RefCell<Vec<Effect<StoreOp>>>,
}

impl Client {
    fn invoke<T>(
        &self,
        f: impl FnOnce(&mut MarketplaceContract, &mut Invocation<StoreOp>) -> T,
    ) -> T {
        let mut env = Invocation::new(Context {
            timestamp: self.timestamp.get(),
            sequence: 1,
            contract: this_contract(),
            protocol_paused: self.paused.get(),
        });
        let result = f(&mut self.contract.borrow_mut(), &mut env);
        *self.steps.borrow_mut() = env.effects;
        result
    }

    fn timestamp(&self) -> u64 {
        self.timestamp.get()
    }

    fn set_timestamp(&self, timestamp: u64) {
        self.timestamp.set(timestamp)
    }

    fn steps(&self) -> Vec<Effect<StoreOp>> {
        self.steps.borrow().clone()
    }

    /// What the last invocation published.
    fn events(&self) -> Vec<Event> {
        let mut events = Vec::new();
        for step in self.steps() {
            if let Step::Publish(event) = step {
                events.push(event);
            }
        }
        events
    }

    fn try_initialize(
        &self,
        admin: &Address,
        invoice_nft: &Address,
        financing_pool: &Address,
        treasury: &Address,
        fee_bps: &u32,
    ) -> Result<(), KoraError> {
        self.invoke(|c, env| {
            c.initialize(env, *admin, *invoice_nft, *financing_pool, *treasury, *fee_bps)
        })
    }

    fn try_list_invoice(
        &self,
        seller: &Address,
        invoice_id: &u64,
        asking_price: &i128,
        face_value: &i128,
        token: &Address,
        funding_deadline: &u64,
    ) -> Result<(), KoraError> {
        self.invoke(|c, env| {
            c.list_invoice(
                env,
                *seller,
                *invoice_id,
                *asking_price,
                *face_value,
                *token,
                *funding_deadline,
            )
        })
    }

    fn list_invoice(
        &self,
        seller: &Address,
        invoice_id: &u64,
        asking_price: &i128,
        face_value: &i128,
        token: &Address,
        funding_deadline: &u64,
    ) {
        self.try_list_invoice(
            seller,
            invoice_id,
            asking_price,
            face_value,
            token,
            funding_deadline,
        )
        .unwrap()
    }

    fn try_fund_invoice(
        &self,
        investor: &Address,
        invoice_id: &u64,
        amount: &i128,
    ) -> Result<(), KoraError> {
        self.invoke(|c, env| c.fund_invoice(env, *investor, *invoice_id, *amount))
    }

    fn fund_invoice(&self, investor: &Address, invoice_id: &u64, amount: &i128) {
        self.try_fund_invoice(investor, invoice_id, amount).unwrap()
    }

    fn try_cancel_listing(&self, caller: &Address, invoice_id: &u64) -> Result<(), KoraError> {
        self.invoke(|c, env| c.cancel_listing(env, *caller, *invoice_id))
    }

    fn cancel_listing(&self, caller: &Address, invoice_id: &u64) {
        self.try_cancel_listing(caller, invoice_id).unwrap()
    }

    fn try_whitelist_token(&self, admin: &Address, token: &Address) -> Result<(), KoraError> {
        self.invoke(|c, env| c.whitelist_token(env, *admin, *token))
    }

    fn whitelist_token(&self, admin: &Address, token: &Address) {
        self.try_whitelist_token(admin, token).unwrap()
    }

    fn get_listing(&self, invoice_id: &u64) -> Result<Listing, KoraError> {
        self.contract.borrow().get_listing(*invoice_id)
    }

    fn try_get_listing(&self, invoice_id: &u64) -> Result<Listing, KoraError> {
        self.get_listing(invoice_id)
    }
}

fn this_contract() -> Address {
    Address { kind: AddressKind::Contract, hi: 1, lo: 1 }
}

struct TestEnv {
    env: Ids,
    admin: Address,
    token: Address,
    seller: Address,
    nft: Address,
    pool: Address,
    treasury: Address,
    mp: Client,
}

/// A contract that is not initialized.
fn deploy_uninit() -> Client {
    Client {
        contract: RefCell::new(MarketplaceContract::new()),
        timestamp: Cell::new(1_700_000_000),
        paused: Cell::new(false),
        steps: RefCell::new(Vec::new()),
    }
}

/// A contract that is initialized, with a fee of half a percent and one token
/// on its whitelist.
fn deploy() -> TestEnv {
    let env = Ids::new();
    let mp = deploy_uninit();
    let admin = env.generate();
    let treasury = env.generate();
    let nft = env.generate();
    let pool = env.generate();
    mp.try_initialize(&admin, &nft, &pool, &treasury, &50u32).unwrap();
    let token = env.generate();
    mp.whitelist_token(&admin, &token);
    let seller = env.generate();
    TestEnv { env, admin, token, seller, nft, pool, treasury, mp }
}

/// Lists an invoice on usual terms, and returns its number.
fn list_one(t: &TestEnv) -> u64 {
    let deadline = t.mp.timestamp() + 86_400 * 30;
    t.mp.list_invoice(
        &t.seller,
        &1u64,
        &9_500_000_000i128,
        &10_000_000_000i128,
        &t.token,
        &deadline,
    );
    1u64
}

#[test]
fn marketplace_test_initialize_success() {
    let t = deploy();
    // Whitelist worked - listing with the token should not fail on token check
    let deadline = t.mp.timestamp() + 86_400;
    let result = t.mp.try_list_invoice(
        &t.seller,
        &1u64,
        &9_000i128,
        &10_000i128,
        &t.token,
        &deadline,
    );
    if let Err(e) = result {
        assert_ne!(e, KoraError::TokenNotWhitelisted);
    }
}

#[test]
fn test_initialize_already_initialized_returns_error() {
    let t = deploy();
    let result = t.mp.try_initialize(
        &t.admin,
        &t.env.generate(),
        &t.env.generate(),
        &t.env.generate(),
        &50u32,
    );
    assert_eq!(result.unwrap_err(), KoraError::AlreadyInitialized);
}

#[test]
fn test_initialize_invalid_fee_bps_rejected() {
    let env = Ids::new();
    let mp = deploy_uninit();
    let result = mp.try_initialize(
        &env.generate(),
        &env.generate(),
        &env.generate(),
        &env.generate(),
        &10_001u32, // > 100%
    );
    assert!(result.is_err());
}

#[test]
fn test_whitelist_token_success() {
    let t = deploy();
    let new_token = t.env.generate();
    assert!(t.mp.try_whitelist_token(&t.admin, &new_token).is_ok());
}

#[test]
fn test_whitelist_token_non_admin_returns_not_admin() {
    let t = deploy();
    let stranger = t.env.generate();
    let new_token = t.env.generate();
    let result = t.mp.try_whitelist_token(&stranger, &new_token);
    assert_eq!(result.unwrap_err(), KoraError::NotAdmin);
}

#[test]
fn test_whitelist_multiple_tokens() {
    let t = deploy();
    let t2 = t.env.generate();
    let t3 = t.env.generate();
    t.mp.whitelist_token(&t.admin, &t2);
    t.mp.whitelist_token(&t.admin, &t3);
    // Both tokens should now be accepted (no error on token check)
    let deadline = t.mp.timestamp() + 86_400;
    for tok in [&t2, &t3] {
        let r =
            t.mp.try_list_invoice(&t.seller, &99u64, &9_000i128, &10_000i128, tok, &deadline);
        if let Err(e) = r {
            assert_ne!(e, KoraError::TokenNotWhitelisted);
        }
    }
}

#[test]
fn test_list_invoice_success() {
    let t = deploy();
    let id = list_one(&t);
    let listing = t.mp.get_listing(&id).unwrap();
    assert_eq!(listing.invoice_id, 1);
    assert_eq!(listing.seller, t.seller);
    assert_eq!(listing.asking_price, 9_500_000_000i128);
    assert_eq!(listing.face_value, 10_000_000_000i128);
    assert!(listing.is_active);
    assert_eq!(listing.funded_amount, 0);
}

#[test]
fn test_list_invoice_nft_status_transitions_to_listed() {
    let t = deploy();
    list_one(&t);
    let listed = Call::SetListed { invoice_nft: t.nft, caller: this_contract(), invoice_id: 1 };
    assert!(t.mp.steps().contains(&Step::Call(listed)));
}

#[test]
fn test_list_invoice_non_whitelisted_token_returns_error() {
    let t = deploy();
    let bad_token = t.env.generate();
    let deadline = t.mp.timestamp() + 86_400;
    let result = t.mp.try_list_invoice(
        &t.seller,
        &1u64,
        &9_000i128,
        &10_000i128,
        &bad_token,
        &deadline,
    );
    assert_eq!(result.unwrap_err(), KoraError::TokenNotWhitelisted);
}

#[test]
fn test_list_invoice_zero_asking_price_rejected() {
    let t = deploy();
    let deadline = t.mp.timestamp() + 86_400;
    let result =
        t.mp.try_list_invoice(&t.seller, &1u64, &0i128, &10_000i128, &t.token, &deadline);
    assert_eq!(result.unwrap_err(), KoraError::InvalidAmount);
}

#[test]
fn test_list_invoice_zero_face_value_rejected() {
    let t = deploy();
    let deadline = t.mp.timestamp() + 86_400;
    let result =
        t.mp.try_list_invoice(&t.seller, &1u64, &9_000i128, &0i128, &t.token, &deadline);
    assert_eq!(result.unwrap_err(), KoraError::InvalidAmount);
}

#[test]
fn test_list_invoice_asking_price_equal_face_value_rejected() {
    let t = deploy();
    let deadline = t.mp.timestamp() + 86_400;
    let result = t.mp.try_list_invoice(
        &t.seller,
        &1u64,
        &10_000i128,
        &10_000i128,
        &t.token,
        &deadline,
    );
    assert_eq!(result.unwrap_err(), KoraError::InvalidAmount);
}

#[test]
fn test_list_invoice_asking_price_greater_than_face_value_rejected() {
    let t = deploy();
    let deadline = t.mp.timestamp() + 86_400;
    let result = t.mp.try_list_invoice(
        &t.seller,
        &1u64,
        &11_000i128,
        &10_000i128,
        &t.token,
        &deadline,
    );
    assert_eq!(result.unwrap_err(), KoraError::InvalidAmount);
}

#[test]
fn test_list_invoice_past_deadline_rejected() {
    let t = deploy();
    let past = t.mp.timestamp() - 1;
    let result =
        t.mp.try_list_invoice(&t.seller, &1u64, &9_000i128, &10_000i128, &t.token, &past);
    assert_eq!(result.unwrap_err(), KoraError::InvalidDueDate);
}

#[test]
fn test_list_invoice_duplicate_id_rejected() {
    let t = deploy();
    list_one(&t);
    let deadline = t.mp.timestamp() + 86_400;
    let result = t.mp.try_list_invoice(
        &t.seller,
        &1u64,
        &9_000i128,
        &10_000i128,
        &t.token,
        &deadline,
    );
    assert_eq!(result.unwrap_err(), KoraError::InvoiceAlreadyExists);
}

#[test]
fn test_list_invoice_negative_asking_price_rejected() {
    let t = deploy();
    let deadline = t.mp.timestamp() + 86_400;
    let result =
        t.mp.try_list_invoice(&t.seller, &1u64, &-1i128, &10_000i128, &t.token, &deadline);
    assert_eq!(result.unwrap_err(), KoraError::InvalidAmount);
}

#[test]
fn test_get_listing_not_found_returns_error() {
    let t = deploy();
    let result = t.mp.try_get_listing(&999u64);
    assert_eq!(result.unwrap_err(), KoraError::ListingNotFound);
}

#[test]
fn test_get_listing_returns_correct_data() {
    let t = deploy();
    let deadline = t.mp.timestamp() + 86_400 * 30;
    t.mp.list_invoice(
        &t.seller,
        &1u64,
        &9_500_000_000i128,
        &10_000_000_000i128,
        &t.token,
        &deadline,
    );
    let listing = t.mp.get_listing(&1u64).unwrap();
    assert_eq!(listing.asking_price, 9_500_000_000i128);
    assert_eq!(listing.face_value, 10_000_000_000i128);
    assert_eq!(listing.funding_deadline, deadline);
    assert_eq!(listing.token, t.token);
    assert!(listing.is_active);
}

#[test]
fn test_fund_invoice_listing_not_found() {
    let t = deploy();
    let investor = t.env.generate();
    let result = t.mp.try_fund_invoice(&investor, &999u64, &1_000i128);
    assert_eq!(result.unwrap_err(), KoraError::ListingNotFound);
}

#[test]
fn test_fund_invoice_zero_amount_rejected() {
    let t = deploy();
    list_one(&t);
    let investor = t.env.generate();
    let result = t.mp.try_fund_invoice(&investor, &1u64, &0i128);
    assert_eq!(result.unwrap_err(), KoraError::InvalidAmount);
}

#[test]
fn test_fund_invoice_exceeds_target_rejected() {
    let t = deploy();
    list_one(&t);
    let investor = t.env.generate();
    // asking_price is 9_500_000_000 - fund 1 more than that
    let result = t.mp.try_fund_invoice(&investor, &1u64, &9_500_000_001i128);
    assert_eq!(result.unwrap_err(), KoraError::ExceedsFundingTarget);
}

#[test]
fn test_fund_invoice_after_deadline_rejected() {
    let t = deploy();
    let deadline = t.mp.timestamp() + 100;
    t.mp.list_invoice(
        &t.seller,
        &1u64,
        &9_500_000_000i128,
        &10_000_000_000i128,
        &t.token,
        &deadline,
    );
    t.mp.set_timestamp(deadline + 1);
    let investor = t.env.generate();
    let result = t.mp.try_fund_invoice(&investor, &1u64, &1_000_000i128);
    assert_eq!(result.unwrap_err(), KoraError::FundingDeadlinePassed);
}

#[test]
fn test_fund_invoice_on_cancelled_listing_rejected() {
    let t = deploy();
    list_one(&t);
    t.mp.cancel_listing(&t.seller, &1u64);
    let investor = t.env.generate();
    let result = t.mp.try_fund_invoice(&investor, &1u64, &1_000_000i128);
    assert_eq!(result.unwrap_err(), KoraError::ListingAlreadyCancelled);
}

#[test]
fn test_fund_invoice_partial_updates_funded_amount() {
    let t = deploy();
    list_one(&t);
    let investor = t.env.generate();
    t.mp.fund_invoice(&investor, &1u64, &1_000_000_000i128);
    let listing = t.mp.get_listing(&1u64).unwrap();
    assert_eq!(listing.funded_amount, 1_000_000_000i128);
    assert!(listing.is_active); // not yet fully funded
}

#[test]
fn test_fund_invoice_fee_math_correct() {
    // fee_bps = 50 (0.5%), amount = 10_000_000
    // fee = 10_000_000 * 50 / 10_000 = 50_000
    // net = 10_000_000 - 50_000 = 9_950_000
    // funded_amount tracks the gross amount contributed
    let t = deploy();
    list_one(&t);
    let investor = t.env.generate();
    let amount = 10_000_000i128;
    t.mp.fund_invoice(&investor, &1u64, &amount);
    let listing = t.mp.get_listing(&1u64).unwrap();
    assert_eq!(listing.funded_amount, amount);
}

#[test]
fn test_fund_invoice_multiple_partial_fundings() {
    let t = deploy();
    list_one(&t);
    let inv1 = t.env.generate();
    let inv2 = t.env.generate();
    t.mp.fund_invoice(&inv1, &1u64, &4_000_000_000i128);
    t.mp.fund_invoice(&inv2, &1u64, &4_000_000_000i128);
    let listing = t.mp.get_listing(&1u64).unwrap();
    assert_eq!(listing.funded_amount, 8_000_000_000i128);
    assert!(listing.is_active);
}

#[test]
fn test_fund_invoice_fully_funded_deactivates_listing() {
    let t = deploy();
    list_one(&t);
    let investor = t.env.generate();
    // Fund the full asking price in one go
    t.mp.fund_invoice(&investor, &1u64, &9_500_000_000i128);
    let listing = t.mp.get_listing(&1u64).unwrap();
    assert!(!listing.is_active);
    assert_eq!(listing.funded_amount, 9_500_000_000i128);
}

#[test]
fn test_cancel_listing_by_seller_success() {
    let t = deploy();
    list_one(&t);
    assert!(t.mp.try_cancel_listing(&t.seller, &1u64).is_ok());
    let listing = t.mp.get_listing(&1u64).unwrap();
    assert!(!listing.is_active);
}

#[test]
fn test_cancel_listing_by_admin_success() {
    let t = deploy();
    list_one(&t);
    assert!(t.mp.try_cancel_listing(&t.admin, &1u64).is_ok());
    let listing = t.mp.get_listing(&1u64).unwrap();
    assert!(!listing.is_active);
}

#[test]
fn test_cancel_listing_by_stranger_rejected() {
    let t = deploy();
    list_one(&t);
    let stranger = t.env.generate();
    let result = t.mp.try_cancel_listing(&stranger, &1u64);
    assert_eq!(result.unwrap_err(), KoraError::Unauthorized);
}

#[test]
fn test_cancel_listing_not_found_returns_error() {
    let t = deploy();
    let result = t.mp.try_cancel_listing(&t.seller, &999u64);
    assert_eq!(result.unwrap_err(), KoraError::ListingNotFound);
}

#[test]
fn test_cancel_listing_already_cancelled_returns_error() {
    let t = deploy();
    list_one(&t);
    t.mp.cancel_listing(&t.seller, &1u64);
    let result = t.mp.try_cancel_listing(&t.seller, &1u64);
    assert_eq!(result.unwrap_err(), KoraError::ListingAlreadyCancelled);
}

#[test]
fn test_cancel_listing_state_unchanged_after_failed_cancel() {
    let t = deploy();
    list_one(&t);
    let stranger = t.env.generate();
    let _ = t.mp.try_cancel_listing(&stranger, &1u64);
    // Listing must still be active
    let listing = t.mp.get_listing(&1u64).unwrap();
    assert!(listing.is_active);
}

#[test]
fn test_fund_after_cancel_rejected() {
    let t = deploy();
    list_one(&t);
    t.mp.cancel_listing(&t.admin, &1u64);
    let investor = t.env.generate();
    let result = t.mp.try_fund_invoice(&investor, &1u64, &1_000_000i128);
    assert_eq!(result.unwrap_err(), KoraError::ListingAlreadyCancelled);
}

#[test]
fn test_listing_emits_standardized_event_with_correct_fields() {
    let t = deploy();
    let deadline = t.mp.timestamp() + 86_400 * 30;
    t.mp.list_invoice(
        &t.seller,
        &1u64,
        &9_500_000_000i128,
        &10_000_000_000i128,
        &t.token,
        &deadline,
    );
    assert_eq!(
        t.mp.events(),
        vec![Event {
            topic: Topic::InvLst,
            data: vec![
                Value::Address(t.seller),
                Value::U64(1),
                Value::I128(9_500_000_000),
                Value::U64(1_700_000_000),
            ],
            shape: Shape::Tuple,
        }]
    );
}

#[test]
fn test_fund_invoice_emits_standardized_event_with_correct_fields() {
    let t = deploy();
    list_one(&t);
    let investor = t.env.generate();
    let funding_amount = 1_000_000_000i128;
    t.mp.fund_invoice(&investor, &1u64, &funding_amount);
    assert_eq!(
        t.mp.events(),
        vec![
            Event {
                topic: Topic::InvFnd,
                data: vec![
                    Value::Address(investor),
                    Value::U64(1),
                    Value::I128(1_000_000_000),
                    Value::U64(1_700_000_000),
                ],
                shape: Shape::Tuple,
            },
            Event {
                topic: Topic::FeeCol,
                data: vec![
                    Value::Address(investor),
                    Value::U64(1),
                    Value::I128(5_000_000),
                    Value::Address(t.token),
                    Value::U64(1_700_000_000),
                ],
                shape: Shape::Tuple,
            },
        ]
    );
}

#[test]
fn test_cancel_listing_emits_standardized_event() {
    let t = deploy();
    list_one(&t);
    t.mp.cancel_listing(&t.seller, &1u64);
    let events = t.mp.events();
    assert_eq!(events.len(), 1);
    assert_eq!(events[0].topic, Topic::LstCxl);
    assert_eq!(events[0].data[1], Value::Address(t.seller));
}

#[test]
fn test_fund_invoice_fee_collected_includes_investor_actor() {
    let t = deploy();
    list_one(&t);
    let investor = t.env.generate();
    t.mp.fund_invoice(&investor, &1u64, &10_000_000i128);
    let events = t.mp.events();
    assert_eq!(events[1].topic, Topic::FeeCol);
    assert_eq!(events[1].data[0], Value::Address(investor));
}

#[test]
fn test_all_state_changing_operations_emit_events() {
    let t = deploy();

    // list_invoice should emit INV_LST event
    let deadline = t.mp.timestamp() + 86_400 * 30;
    t.mp.list_invoice(
        &t.seller,
        &1u64,
        &9_500_000_000i128,
        &10_000_000_000i128,
        &t.token,
        &deadline,
    );
    assert!(!t.mp.events().is_empty());

    // fund_invoice should emit INV_FND and FEE_COL events
    let investor = t.env.generate();
    t.mp.fund_invoice(&investor, &1u64, &1_000_000_000i128);
    assert!(!t.mp.events().is_empty());

    // List another invoice for cancel test
    t.mp.list_invoice(
        &t.seller,
        &2u64,
        &9_500_000_000i128,
        &10_000_000_000i128,
        &t.token,
        &deadline,
    );
    assert!(!t.mp.events().is_empty());

    // cancel_listing should emit LST_CXL event
    t.mp.cancel_listing(&t.seller, &2u64);
    assert!(!t.mp.events().is_empty());
}

#[test]
fn funding_is_split_into_fee_and_rest() {
    let t = deploy();
    list_one(&t);
    let investor = t.env.generate();
    t.mp.fund_invoice(&investor, &1u64, &10_000_000i128);
    let steps = t.mp.steps();
    assert_eq!(steps[0], Step::RequireAuth(investor));
    assert_eq!(
        steps[1],
        Step::Call(Call::Transfer {
            token: t.token,
            from: investor,
            to: t.treasury,
            amount: 50_000,
        })
    );
    assert_eq!(
        steps[2],
        Step::Call(Call::Transfer {
            token: t.token,
            from: investor,
            to: t.pool,
            amount: 9_950_000,
        })
    );
    assert_eq!(steps[3], Step::Store(StoreOp::SetListing(1, t.mp.get_listing(&1).unwrap())));
    assert_eq!(steps.len(), 6);
}

#[test]
fn small_amount_is_free_of_fee() {
    let t = deploy();
    list_one(&t);
    let investor = t.env.generate();
    t.mp.fund_invoice(&investor, &1u64, &199i128);
    assert_eq!(
        t.mp.steps()[1],
        Step::Call(Call::Transfer { token: t.token, from: investor, to: t.treasury, amount: 0 })
    );
}

#[test]
fn last_contribution_releases_the_funds() {
    let t = deploy();
    list_one(&t);
    let investor = t.env.generate();
    t.mp.fund_invoice(&investor, &1u64, &9_499_999_999i128);
    assert_eq!(t.mp.steps().len(), 6);
    t.mp.fund_invoice(&investor, &1u64, &1i128);
    assert_eq!(
        t.mp.steps()[6],
        Step::Call(Call::ReleaseFunds {
            pool: t.pool,
            marketplace: this_contract(),
            invoice_id: 1,
            token: t.token,
        })
    );
    assert_eq!(
        t.mp.try_fund_invoice(&investor, &1u64, &1i128),
        Err(KoraError::ListingAlreadyCancelled)
    );
    assert_eq!(t.mp.try_cancel_listing(&t.seller, &1u64), Err(KoraError::ListingAlreadyCancelled));
}

#[test]
fn deadline_itself_is_in_time() {
    let t = deploy();
    list_one(&t);
    let investor = t.env.generate();
    let deadline = t.mp.get_listing(&1).unwrap().funding_deadline;
    t.mp.set_timestamp(deadline);
    t.mp.fund_invoice(&investor, &1u64, &1i128);
    t.mp.set_timestamp(deadline + 1);
    assert_eq!(
        t.mp.try_fund_invoice(&investor, &1u64, &1i128),
        Err(KoraError::FundingDeadlinePassed)
    );
}

#[test]
fn paused_marketplace_serves_nobody() {
    let t = deploy();
    list_one(&t);
    t.mp.paused.set(true);
    let deadline = t.mp.timestamp() + 1;
    let paused = Err(KoraError::ProtocolPaused);
    assert_eq!(t.mp.try_list_invoice(&t.seller, &2, &1, &2, &t.token, &deadline), paused);
    assert_eq!(t.mp.try_fund_invoice(&t.seller, &1, &1), paused);
    assert_eq!(t.mp.try_cancel_listing(&t.seller, &1), paused);
    assert_eq!(t.mp.try_whitelist_token(&t.admin, &t.seller), paused);
    assert_eq!(t.mp.steps(), vec![Step::RequireAuth(t.admin)]);
    t.mp.paused.set(false);
    t.mp.fund_invoice(&t.seller, &1, &1);
}

#[test]
fn listing_asks_for_its_steps_in_order() {
    let t = deploy();
    list_one(&t);
    let steps = t.mp.steps();
    assert_eq!(steps[0], Step::RequireAuth(t.seller));
    assert_eq!(
        steps[1],
        Step::Call(Call::SetListed { invoice_nft: t.nft, caller: this_contract(), invoice_id: 1 })
    );
    assert_eq!(steps[2], Step::Store(StoreOp::SetListing(1, t.mp.get_listing(&1).unwrap())));
    assert_eq!(steps.len(), 4);
}

#[test]
fn cancelled_invoice_cannot_be_listed_again() {
    let t = deploy();
    list_one(&t);
    t.mp.cancel_listing(&t.seller, &1);
    let deadline = t.mp.timestamp() + 1;
    assert_eq!(
        t.mp.try_list_invoice(&t.seller, &1, &1, &2, &t.token, &deadline),
        Err(KoraError::InvoiceAlreadyExists)
    );
}

#[test]
fn other_listings_stay_as_they_are() {
    let t = deploy();
    list_one(&t);
    let deadline = t.mp.timestamp() + 1;
    t.mp.list_invoice(&t.seller, &2, &10, &20, &t.token, &deadline);
    let first = t.mp.get_listing(&1).unwrap();
    t.mp.fund_invoice(&t.admin, &2, &4);
    t.mp.cancel_listing(&t.admin, &2);
    assert_eq!(t.mp.get_listing(&1).unwrap(), first);
    assert_eq!(t.mp.get_listing(&2).unwrap().funded_amount, 4);
}

#[test]
fn fee_too_large_to_compute_is_refused() {
    let t = deploy();
    let deadline = t.mp.timestamp() + 1;
    t.mp.list_invoice(&t.seller, &1, &(i128::MAX - 1), &i128::MAX, &t.token, &deadline);
    assert_eq!(
        t.mp.try_fund_invoice(&t.admin, &1, &(i128::MAX - 1)),
        Err(KoraError::ArithmeticOverflow)
    );
}

#[test]
fn remainder_that_does_not_fit_is_refused() {
    let t = deploy();
    list_one(&t);
    let listing = Listing { funded_amount: i128::MIN, ..t.mp.get_listing(&1).unwrap() };
    t.mp.contract.borrow_mut().listings.set(1, listing);
    assert_eq!(t.mp.try_fund_invoice(&t.admin, &1, &1), Err(KoraError::ArithmeticOverflow));
}

#[test]
fn unconfigured_marketplace_refuses_without_panic() {
    let env = Ids::new();
    let mp = deploy_uninit();
    let who = env.generate();
    let deadline = mp.timestamp() + 1;
    assert!(mp.contract.borrow().is_wf());
    assert_eq!(mp.try_whitelist_token(&who, &who), Err(KoraError::NotInitialized));
    assert_eq!(
        mp.try_list_invoice(&who, &1, &1, &2, &who, &deadline),
        Err(KoraError::TokenNotWhitelisted)
    );
    assert_eq!(mp.try_fund_invoice(&who, &1, &1), Err(KoraError::ListingNotFound));
    assert_eq!(mp.try_cancel_listing(&who, &1), Err(KoraError::ListingNotFound));
}

#[test]
fn half_configured_marketplace_is_not_well_formed() {
    let t = deploy();
    assert!(t.mp.contract.borrow().is_wf());
    t.mp.contract.borrow_mut().treasury = None;
    assert!(!t.mp.contract.borrow().is_wf());
}

#[test]
fn listings_and_tokens_are_persistent() {
    let t = deploy();
    assert_eq!(DataKey::Listing(1).durability(), Durability::Persistent);
    assert_eq!(DataKey::WhitelistedToken(t.token).durability(), Durability::Persistent);
    assert_eq!(DataKey::FeeBps.durability(), Durability::Instance);
}
