use qr_payment::cache::{idempotency_key, merchant_qr_key, Cache, CachedValue, IDEMPOTENCY_TTL_SECS, MERCHANT_TTL_SECS};
use qr_payment::error::{AppError, DbFailure};
use qr_payment::merchant::{get_merchant_by_id, get_merchant_by_qr};
use qr_payment::model::{
    Merchant, PaymentExecuteRequest, PaymentInitRequest, TransactionStatus, User, UserPublic,
};
use qr_payment::payment::{
    plan_execution, ExecutionPlan,
    ensure_balance, execute_payment, execute_payment_with_token, initiate_payment, settlement_reference,
    validate_initiation,
};
use qr_payment::store::Ledger;

const QR: &str = "upi://pay?pa=coffeeshop@upi&pn=Coffee%20Shop&am=100";
const USER: u128 = 0x1111_2222_3333_4444_5555_6666_7777_8888;
const MERCHANT: u128 = 0xaaaa_bbbb_cccc_dddd_eeee_ffff_0000_1111;

fn merchant() -> Merchant {
    Merchant {
        id: MERCHANT,
        name: "Coffee Shop".to_string(),
        upi_id: "coffeeshop@upi".to_string(),
        category: Some("food".to_string()),
        address: None,
        phone: Some("9999999999".to_string()),
        qr_code_data: QR.to_string(),
        created_at: 0,
    }
}

fn payer(balance: i64) -> User {
    User {
        id: USER,
        phone_number: "9876543210".to_string(),
        upi_id: "testuser@paytm".to_string(),
        name: "Test User".to_string(),
        balance,
        pin_hash: bcrypt::hash("1234", 4).unwrap(),
        created_at: 0,
        updated_at: 0,
    }
}

/// A store with one merchant and one payer holding `balance` minor units.
fn seeded(balance: i64) -> (Ledger, Cache) {
    let mut store = Ledger::new();
    store.add_merchant(merchant()).expect("failed to seed merchant");
    store.add_user(payer(balance)).expect("failed to set balance");
    (store, Cache::new())
}

fn init_req(amount: i64, key: &str) -> PaymentInitRequest {
    PaymentInitRequest { qr_data: QR.to_string(), amount, idempotency_key: key.to_string() }
}

fn balance(store: &Ledger) -> i64 {
    store.users.iter().find(|u| u.id == USER).unwrap().balance
}

#[test]
fn auth_and_payment_flow() {
    let (mut store, mut cache) = seeded(100_000);
    let init = initiate_payment(&mut store, &mut cache, USER, &init_req(10_000, "unique-key-123"), 10).unwrap();
    assert_eq!(init.status, "initiated");
    assert_eq!(init.amount, 10_000);
    assert_eq!(init.merchant.name, "Coffee Shop");
    let req = PaymentExecuteRequest { session_id: init.session_id, pin: "1234".to_string() };
    let done = execute_payment(&mut store, &mut cache, USER, &req, 20).unwrap();
    assert_eq!(done.status, "success");
}

#[test]
fn payment_idempotency() {
    let (mut store, mut cache) = seeded(100_000);
    let a = initiate_payment(&mut store, &mut cache, USER, &init_req(10_000, "same-key"), 10).unwrap();
    let b = initiate_payment(&mut store, &mut cache, USER, &init_req(10_000, "same-key"), 11).unwrap();
    assert_eq!(a.session_id, b.session_id);
    assert_eq!(store.sessions.len(), 1);
}

#[test]
fn settle_debits_and_sets_reference() {
    let (mut store, mut cache) = seeded(100_000);
    let init = initiate_payment(&mut store, &mut cache, USER, &init_req(10_000, "k1"), 10).unwrap();
    let req = PaymentExecuteRequest { session_id: init.session_id, pin: "1234".to_string() };
    let done = execute_payment_with_token(&mut store, &mut cache, USER, &req, "tok-1", 20).unwrap();
    assert_eq!(done.status, "success");
    assert_eq!(done.message, "payment successful");
    assert_eq!(done.upi_txn_id.as_deref(), Some("UPItok-1"));
    assert_eq!(balance(&store), 90_000);
    assert_eq!(store.sessions[0].status, TransactionStatus::Success);
    assert_eq!(store.sessions[0].updated_at, 20);
    assert!(cache.get(&idempotency_key("k1")).is_none());
}

#[test]
fn random_reference_has_uuid_shape() {
    let (mut store, mut cache) = seeded(100_000);
    let init = initiate_payment(&mut store, &mut cache, USER, &init_req(10_000, "k1"), 10).unwrap();
    let req = PaymentExecuteRequest { session_id: init.session_id, pin: "1234".to_string() };
    let done = execute_payment(&mut store, &mut cache, USER, &req, 20).unwrap();
    let r = done.upi_txn_id.unwrap();
    assert!(r.starts_with("UPI"));
    assert_eq!(r.len(), 39);
    assert!(uuid::Uuid::parse_str(&r[3..]).is_ok());
}

#[test]
fn execute_twice_debits_once() {
    let (mut store, mut cache) = seeded(100_000);
    let init = initiate_payment(&mut store, &mut cache, USER, &init_req(10_000, "k2"), 10).unwrap();
    let req = PaymentExecuteRequest { session_id: init.session_id, pin: "1234".to_string() };
    let first = execute_payment_with_token(&mut store, &mut cache, USER, &req, "tok-a", 20).unwrap();
    let second = execute_payment_with_token(&mut store, &mut cache, USER, &req, "tok-b", 30).unwrap();
    assert_eq!(second.upi_txn_id, first.upi_txn_id);
    assert_eq!(second.message, "transaction already processed");
    assert_eq!(second.status, "success");
    assert_eq!(balance(&store), 90_000);
}

#[test]
fn wrong_pin_changes_nothing() {
    let (mut store, mut cache) = seeded(100_000);
    let init = initiate_payment(&mut store, &mut cache, USER, &init_req(10_000, "k3"), 10).unwrap();
    let req = PaymentExecuteRequest { session_id: init.session_id, pin: "9999".to_string() };
    let err = execute_payment_with_token(&mut store, &mut cache, USER, &req, "t", 20).unwrap_err();
    assert!(matches!(err, AppError::Unauthorized(ref m) if m == "invalid pin"));
    assert_eq!(balance(&store), 100_000);
    assert_eq!(store.sessions[0].status, TransactionStatus::Initiated);
}

#[test]
fn malformed_verifier_is_internal() {
    let mut store = Ledger::new();
    store.add_merchant(merchant()).unwrap();
    let mut u = payer(100_000);
    u.pin_hash = "not-a-hash".to_string();
    store.add_user(u).unwrap();
    let mut cache = Cache::new();
    let init = initiate_payment(&mut store, &mut cache, USER, &init_req(10_000, "k"), 10).unwrap();
    let req = PaymentExecuteRequest { session_id: init.session_id, pin: "1234".to_string() };
    let err = execute_payment_with_token(&mut store, &mut cache, USER, &req, "t", 20).unwrap_err();
    assert!(matches!(err, AppError::Internal(ref m) if m == "pin verify failed"));
}

#[test]
fn insufficient_balance_is_bad_request() {
    let (mut store, mut cache) = seeded(5_000);
    let init = initiate_payment(&mut store, &mut cache, USER, &init_req(10_000, "k4"), 10).unwrap();
    let req = PaymentExecuteRequest { session_id: init.session_id, pin: "1234".to_string() };
    let err = execute_payment_with_token(&mut store, &mut cache, USER, &req, "t", 20).unwrap_err();
    assert!(matches!(err, AppError::BadRequest(ref m) if m == "insufficient balance"));
    assert_eq!(balance(&store), 5_000);
    assert_eq!(store.sessions[0].status, TransactionStatus::Initiated);
}

#[test]
fn exact_balance_goes_to_zero() {
    let (mut store, mut cache) = seeded(10_000);
    let init = initiate_payment(&mut store, &mut cache, USER, &init_req(10_000, "k5"), 10).unwrap();
    let req = PaymentExecuteRequest { session_id: init.session_id, pin: "1234".to_string() };
    execute_payment_with_token(&mut store, &mut cache, USER, &req, "t", 20).unwrap();
    assert_eq!(balance(&store), 0);
}

#[test]
fn unknown_or_foreign_session_is_not_found() {
    let (mut store, mut cache) = seeded(100_000);
    let init = initiate_payment(&mut store, &mut cache, USER, &init_req(10_000, "k6"), 10).unwrap();
    let req = PaymentExecuteRequest { session_id: init.session_id + 100, pin: "1234".to_string() };
    let err = execute_payment_with_token(&mut store, &mut cache, USER, &req, "t", 20).unwrap_err();
    assert_eq!(err.status_code(), 404);
    let req = PaymentExecuteRequest { session_id: init.session_id, pin: "1234".to_string() };
    let err = execute_payment_with_token(&mut store, &mut cache, USER + 1, &req, "t", 20).unwrap_err();
    assert!(matches!(err, AppError::NotFound(_)));
}

#[test]
fn non_positive_amount_and_empty_key_rejected() {
    let (mut store, mut cache) = seeded(100_000);
    let err = initiate_payment(&mut store, &mut cache, USER, &init_req(0, "k"), 10).unwrap_err();
    assert!(matches!(err, AppError::BadRequest(ref m) if m == "amount must be greater than 0"));
    let err = initiate_payment(&mut store, &mut cache, USER, &init_req(-5, "k"), 10).unwrap_err();
    assert!(matches!(err, AppError::BadRequest(_)));
    let err = initiate_payment(&mut store, &mut cache, USER, &init_req(100, ""), 10).unwrap_err();
    assert!(matches!(err, AppError::BadRequest(ref m) if m == "idempotency key must not be empty"));
    assert!(store.sessions.is_empty());
    assert!(validate_initiation(&init_req(1, "k")).is_ok());
}

#[test]
fn unknown_merchant_is_not_found() {
    let (mut store, mut cache) = seeded(100_000);
    let mut req = init_req(100, "k");
    req.qr_data = "upi://pay?pa=nobody".to_string();
    let err = initiate_payment(&mut store, &mut cache, USER, &req, 10).unwrap_err();
    assert!(matches!(err, AppError::NotFound(ref m) if m == "not found"));
    assert!(store.sessions.is_empty());
}

#[test]
fn cache_miss_recovers_existing_session() {
    let (mut store, mut cache) = seeded(100_000);
    let a = initiate_payment(&mut store, &mut cache, USER, &init_req(10_000, "race"), 10).unwrap();
    let mut fresh = Cache::new();
    let b = initiate_payment(&mut store, &mut fresh, USER, &init_req(10_000, "race"), 11).unwrap();
    assert_eq!(a.session_id, b.session_id);
    assert_eq!(store.sessions.len(), 1);
}

#[test]
fn same_key_for_other_user_is_another_session() {
    let (mut store, _) = seeded(100_000);
    let mut other = payer(0);
    other.id = USER + 7;
    store.add_user(other).unwrap();
    let a = initiate_payment(&mut store, &mut Cache::new(), USER, &init_req(100, "k"), 10).unwrap();
    let b = initiate_payment(&mut store, &mut Cache::new(), USER + 7, &init_req(100, "k"), 10).unwrap();
    assert_ne!(a.session_id, b.session_id);
    assert_eq!(store.sessions.len(), 2);
}

#[test]
fn replay_view_shows_settled_status_after_eviction() {
    let (mut store, mut cache) = seeded(100_000);
    let a = initiate_payment(&mut store, &mut cache, USER, &init_req(10_000, "k7"), 10).unwrap();
    let req = PaymentExecuteRequest { session_id: a.session_id, pin: "1234".to_string() };
    execute_payment_with_token(&mut store, &mut cache, USER, &req, "t", 20).unwrap();
    let b = initiate_payment(&mut store, &mut cache, USER, &init_req(10_000, "k7"), 30).unwrap();
    assert_eq!(b.session_id, a.session_id);
    assert_eq!(b.status, "success");
    assert_eq!(balance(&store), 90_000);
}

#[test]
fn merchant_lookup_reads_through_cache() {
    let (store, mut cache) = seeded(0);
    let key = merchant_qr_key(QR);
    assert_eq!(key, format!("merchant:qr:{}", QR));
    assert!(cache.get(&key).is_none());
    let m = get_merchant_by_qr(&store, &mut cache, &QR.to_string()).unwrap();
    assert_eq!(m.id, MERCHANT);
    assert!(matches!(cache.get(&key), Some(CachedValue::Merchant(ref c)) if c.id == MERCHANT));
    let empty = Ledger::new();
    let again = get_merchant_by_qr(&empty, &mut cache, &QR.to_string()).unwrap();
    assert_eq!(again.name, "Coffee Shop");
    let by_id = get_merchant_by_id(&store, &mut cache, MERCHANT).unwrap();
    assert_eq!(by_id.upi_id, "coffeeshop@upi");
    assert!(get_merchant_by_id(&store, &mut cache, 5).is_err());
}

#[test]
fn cache_set_get_delete() {
    let mut cache = Cache::new();
    let k1 = "a".to_string();
    let k2 = "b".to_string();
    cache.set(&k1, CachedValue::Merchant(merchant()), 60);
    cache.set(&k2, CachedValue::Merchant(merchant()), 60);
    let mut m = merchant();
    m.name = "Other".to_string();
    cache.set(&k1, CachedValue::Merchant(m), 60);
    assert!(matches!(cache.get(&k1), Some(CachedValue::Merchant(ref c)) if c.name == "Other"));
    cache.delete(&k1);
    assert!(cache.get(&k1).is_none());
    assert!(cache.get(&k2).is_some());
}

#[test]
fn store_refuses_duplicates() {
    let mut store = Ledger::new();
    store.add_merchant(merchant()).unwrap();
    assert_eq!(store.add_merchant(merchant()), Err(DbFailure::UniqueViolation));
    store.add_user(payer(1)).unwrap();
    assert_eq!(store.add_user(payer(2)), Err(DbFailure::UniqueViolation));
    let key = "k".to_string();
    let i = store.insert_session(USER, MERCHANT, 5, &key, 1).unwrap();
    assert_eq!(store.sessions[i].status, TransactionStatus::Initiated);
    assert_eq!(store.insert_session(USER, MERCHANT, 5, &key, 2), Err(DbFailure::UniqueViolation));
}

#[test]
fn balance_check_edges() {
    assert!(ensure_balance(100, 100).is_ok());
    assert!(matches!(ensure_balance(99, 100), Err(AppError::BadRequest(_))));
}

#[test]
fn reference_and_keys() {
    assert_eq!(settlement_reference("abc"), "UPIabc");
    assert_eq!(idempotency_key("same-key"), "payment:idempotency:same-key");
}

#[test]
fn status_labels() {
    assert_eq!(TransactionStatus::Initiated.label(), "initiated");
    assert_eq!(TransactionStatus::Pending.label(), "pending");
    assert_eq!(TransactionStatus::Success.label(), "success");
    assert_eq!(TransactionStatus::Failed.label(), "failed");
    assert_eq!(TransactionStatus::Refunded.label(), "refunded");
    assert!(TransactionStatus::Pending.is_executable());
    assert!(!TransactionStatus::Refunded.is_executable());
}

#[test]
fn public_user_drops_verifier() {
    let p = UserPublic::from(payer(42));
    assert_eq!(p.balance, 42);
    assert_eq!(p.name, "Test User");
}

#[test]
fn cache_lifetimes() {
    assert_eq!(IDEMPOTENCY_TTL_SECS, 600);
    assert_eq!(MERCHANT_TTL_SECS, 3600);
    let (mut store, mut cache) = seeded(100_000);
    initiate_payment(&mut store, &mut cache, USER, &init_req(10_000, "ttl"), 10).unwrap();
    assert_eq!(cache.ttl(&idempotency_key("ttl")), Some(600));
    assert_eq!(cache.ttl(&merchant_qr_key(QR)), Some(3600));
    cache.set(&"x".to_string(), CachedValue::Merchant(merchant()), 5);
    assert_eq!(cache.ttl(&"x".to_string()), Some(5));
    cache.delete(&"x".to_string());
    assert_eq!(cache.ttl(&"x".to_string()), None);
}

#[test]
fn settled_rows_only_carry_references() {
    let (mut store, mut cache) = seeded(100_000);
    let init = initiate_payment(&mut store, &mut cache, USER, &init_req(10_000, "ref"), 10).unwrap();
    assert!(store.sessions[0].upi_txn_id.is_none());
    let req = PaymentExecuteRequest { session_id: init.session_id, pin: "1234".to_string() };
    execute_payment_with_token(&mut store, &mut cache, USER, &req, "z", 20).unwrap();
    assert_eq!(store.sessions[0].upi_txn_id.as_deref(), Some("UPIz"));
}

#[test]
fn execution_plans() {
    let (mut store, mut cache) = seeded(100_000);
    initiate_payment(&mut store, &mut cache, USER, &init_req(10_000, "plan"), 10).unwrap();
    let session = store.sessions[0].clone();
    let account = store.users[0].clone();
    match plan_execution(&session, Some(&account), "1234", "tok", 50).unwrap() {
        ExecutionPlan::Settle { session: s, balance, evict_key, response } => {
            assert_eq!(balance, 90_000);
            assert_eq!(s.status, TransactionStatus::Success);
            assert_eq!(s.upi_txn_id.as_deref(), Some("UPItok"));
            assert_eq!(s.updated_at, 50);
            assert_eq!(evict_key, "payment:idempotency:plan");
            assert_eq!(response.message, "payment successful");
        }
        ExecutionPlan::Replay(_) => panic!("a fresh session is settled"),
    }
    assert!(matches!(plan_execution(&session, None, "1234", "t", 1), Err(AppError::NotFound(ref m)) if m == "not found"));
    assert!(matches!(plan_execution(&session, Some(&account), "0000", "t", 1), Err(AppError::Unauthorized(_))));
    let mut done = session.clone();
    done.status = TransactionStatus::Refunded;
    done.upi_txn_id = Some("UPIold".to_string());
    match plan_execution(&done, None, "0000", "t", 1).unwrap() {
        ExecutionPlan::Replay(r) => {
            assert_eq!(r.status, "refunded");
            assert_eq!(r.upi_txn_id.as_deref(), Some("UPIold"));
            assert_eq!(r.message, "transaction already processed");
        }
        ExecutionPlan::Settle { .. } => panic!("a refunded session is not settled again"),
    }
}
