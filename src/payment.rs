//! The payment engine: initiation with idempotent replay, and execution as
//! one atomic state transition that debits at most once per session.
use vstd::prelude::*;
use crate::auth::{bcrypt_verdict, new_uuid_text, verify_pin};
use crate::cache::{
    idempotency_key, idempotency_key_spec, merchant_qr_key_spec, Cache, CachedValue, IDEMPOTENCY_TTL_SECS,
    MERCHANT_TTL_SECS,
};
use crate::error::{AppError, DbFailure};
use crate::merchant::{get_merchant_by_qr, merchant_hit, resolve_by_code};
use crate::model::{
    copy_text, Merchant, MerchantInfo, PaymentExecuteRequest, PaymentExecuteResponse, PaymentInitRequest,
    PaymentInitResponse, Transaction, TransactionStatus, User,
};
use crate::store::{debited_from, fresh_row, key_index, session_index, settled_from, user_index, Ledger};

verus! {

// ---------------------------------------------------------------- decisions

/// An initiation request is served only for a positive amount and a
/// non-empty idempotency key.
pub open spec fn init_request_ok(req: PaymentInitRequest) -> bool {
    req.amount > 0 && req.idempotency_key@.len() > 0
}

pub fn validate_initiation(req: &PaymentInitRequest) -> (r: Result<(), AppError>)
    ensures
        r is Ok <==> init_request_ok(*req),
        req.amount <= 0 ==> r->Err_0 is BadRequest && r->Err_0.msg() == "amount must be greater than 0"@,
        req.amount > 0 && req.idempotency_key@.len() == 0 ==> r->Err_0 is BadRequest
            && r->Err_0.msg() == "idempotency key must not be empty"@,
{
    if req.amount <= 0 {
        return Err(AppError::bad_request("amount must be greater than 0"));
    }
    if req.idempotency_key.as_str().is_empty() {
        return Err(AppError::bad_request("idempotency key must not be empty"));
    }
    Ok(())
}

/// `r` shows session `t` with merchant `m`.
pub open spec fn init_view(r: PaymentInitResponse, t: Transaction, m: Merchant) -> bool {
    &&& r.session_id == t.id
    &&& r.merchant == MerchantInfo::of(m)
    &&& r.amount == t.amount
    &&& r.status@ == t.status.label_spec()
}

/// The initiation view of a session.
pub fn session_view(t: &Transaction, m: &Merchant) -> (r: PaymentInitResponse)
    ensures
        init_view(r, *t, *m),
{
    PaymentInitResponse {
        session_id: t.id,
        merchant: MerchantInfo::summarize(m),
        amount: t.amount,
        status: t.status.label(),
    }
}

/// The view replayed from a cache read, if the read holds one; anything else
/// counts as a miss.
pub open spec fn replayable(v: Option<CachedValue>) -> Option<PaymentInitResponse> {
    match v {
        Some(CachedValue::Session(s)) => Some(s),
        _ => None,
    }
}

pub fn cached_view(v: Option<CachedValue>) -> (r: Option<PaymentInitResponse>)
    ensures
        r == replayable(v),
{
    match v {
        Some(CachedValue::Session(s)) => Some(s),
        _ => None,
    }
}

/// What a failed session insert leads to: a unique violation means the
/// session exists already and is fetched instead (`None`); any other
/// failure is reported.
pub fn insert_failure(e: DbFailure) -> (r: Option<AppError>)
    ensures
        e == DbFailure::UniqueViolation <==> r is None,
        e == DbFailure::RowNotFound ==> r is Some && r->Some_0 is NotFound,
        e == DbFailure::Other ==> r is Some && r->Some_0 is Internal && r->Some_0.msg() == "database error"@,
{
    match e {
        DbFailure::UniqueViolation => None,
        _ => Some(AppError::from_sqlx(e)),
    }
}

/// A failure to fetch the session that a unique violation reported: a
/// missing row is a `Conflict`, anything else `Internal`.
pub fn recovery_failure(e: DbFailure) -> (r: AppError)
    ensures
        e == DbFailure::RowNotFound ==> r is Conflict && r.msg() == "already exists"@,
        e != DbFailure::RowNotFound ==> r is Internal && r.msg() == "database error"@,
{
    match e {
        DbFailure::RowNotFound => AppError::conflict("already exists"),
        _ => AppError::internal("database error"),
    }
}

/// `r` answers a repeated execution of the settled or failed session `t`.
pub open spec fn already_view(r: PaymentExecuteResponse, t: Transaction) -> bool {
    &&& r.transaction_id == t.id
    &&& r.status@ == t.status.label_spec()
    &&& r.upi_txn_id == t.upi_txn_id
    &&& r.message@ == "transaction already processed"@
}

pub fn already_processed(t: &Transaction) -> (r: PaymentExecuteResponse)
    ensures
        already_view(r, *t),
{
    PaymentExecuteResponse {
        transaction_id: t.id,
        status: t.status.label(),
        upi_txn_id: copy_text(&t.upi_txn_id),
        message: "transaction already processed".to_owned(),
    }
}

/// The balance must cover the amount.
pub fn ensure_balance(balance: i64, amount: i64) -> (r: Result<(), AppError>)
    ensures
        r is Ok <==> balance >= amount,
        r is Err ==> r->Err_0 is BadRequest && r->Err_0.msg() == "insufficient balance"@,
{
    if balance < amount {
        return Err(AppError::bad_request("insufficient balance"));
    }
    Ok(())
}

pub open spec fn reference_spec(token: Seq<char>) -> Seq<char> {
    "UPI"@ + token
}

/// The settlement reference made from a unique token.
pub fn settlement_reference(token: &str) -> (r: String)
    ensures
        r@ == reference_spec(token@),
{
    String::from_str("UPI").concat(token)
}

/// `r` reports the successful settlement `t`.
pub open spec fn success_view(r: PaymentExecuteResponse, t: Transaction) -> bool {
    &&& r.transaction_id == t.id
    &&& r.status@ == "success"@
    &&& r.upi_txn_id == t.upi_txn_id
    &&& r.message@ == "payment successful"@
}

pub fn settled_response(t: &Transaction) -> (r: PaymentExecuteResponse)
    ensures
        success_view(r, *t),
{
    PaymentExecuteResponse {
        transaction_id: t.id,
        status: "success".to_owned(),
        upi_txn_id: copy_text(&t.upi_txn_id),
        message: "payment successful".to_owned(),
    }
}

/// What an execution does once its session (and the payer's account, if
/// there is one) is loaded and locked.
#[derive(Clone, Debug)]
pub enum ExecutionPlan {
    /// Nothing to write: commit and answer.
    Replay(PaymentExecuteResponse),
    /// Write `session`, set the account's balance to `balance`, commit,
    /// evict the replay entry `evict_key`, answer with `response`.
    Settle { session: Transaction, balance: i64, evict_key: String, response: PaymentExecuteResponse },
}

/// The settled form of `t` with reference `reference` at `now`.
fn settled_row(t: &Transaction, reference: String, now: i64) -> (r: Transaction)
    ensures
        settled_from(*t, r, reference@, now),
        r.upi_txn_id == Some(reference),
{
    Transaction {
        id: t.id,
        user_id: t.user_id,
        merchant_id: t.merchant_id,
        amount: t.amount,
        status: TransactionStatus::Success,
        idempotency_key: t.idempotency_key.clone(),
        upi_txn_id: Some(reference),
        error_message: None,
        created_at: t.created_at,
        updated_at: now,
    }
}

/// The execution decision for a loaded session: a session that is no longer
/// executable is replayed; otherwise a missing account is `NotFound`, a PIN
/// that does not verify is `Unauthorized` (`Internal` for a malformed
/// verifier), a balance short of the amount is `BadRequest`, and else the
/// session is settled with reference `UPI<token>` and the amount debited.
pub fn plan_execution(session: &Transaction, account: Option<&User>, pin: &str, token: &str, now: i64) -> (r: Result<ExecutionPlan, AppError>)
    requires
        session.amount > 0,
    ensures
        !session.status.executable() ==> r is Ok && r->Ok_0 is Replay && already_view(r->Ok_0->Replay_0, *session),
        session.status.executable() ==> match account {
            None => r is Err && r->Err_0 is NotFound && r->Err_0.msg() == "not found"@,
            Some(a) => {
                let verdict = bcrypt_verdict(pin@, a.pin_hash@);
                if verdict == Some(false) {
                    r is Err && r->Err_0 is Unauthorized && r->Err_0.msg() == "invalid pin"@
                } else if verdict is None {
                    r is Err && r->Err_0 is Internal && r->Err_0.msg() == "pin verify failed"@
                } else if a.balance < session.amount {
                    r is Err && r->Err_0 is BadRequest && r->Err_0.msg() == "insufficient balance"@
                } else {
                    &&& r is Ok
                    &&& r->Ok_0 is Settle
                    &&& settled_from(*session, r->Ok_0->session, reference_spec(token@), now)
                    &&& r->Ok_0->session.upi_txn_id is Some
                    &&& r->Ok_0->session.upi_txn_id->Some_0@ == reference_spec(token@)
                    &&& r->Ok_0->balance == a.balance - session.amount
                    &&& r->Ok_0->evict_key@ == idempotency_key_spec(session.idempotency_key@)
                    &&& success_view(r->Ok_0->response, r->Ok_0->session)
                }
            },
        },
{
    if !session.status.is_executable() {
        return Ok(ExecutionPlan::Replay(already_processed(session)));
    }
    let a = match account {
        Some(a) => a,
        None => return Err(AppError::from_sqlx(DbFailure::RowNotFound)),
    };
    let checked = verify_pin(pin, a);
    if let Err(e) = checked {
        proof {
            let verdict = bcrypt_verdict(pin@, a.pin_hash@);
            assert(verdict == Some(false) || verdict is None);
        }
        return Err(e);
    }
    if let Err(e) = ensure_balance(a.balance, session.amount) {
        return Err(e);
    }
    let row = settled_row(session, settlement_reference(token), now);
    let response = settled_response(&row);
    Ok(ExecutionPlan::Settle {
        session: row,
        balance: a.balance - session.amount,
        evict_key: idempotency_key(session.idempotency_key.as_str()),
        response,
    })
}

// ---------------------------------------------------------------- transitions

pub open spec fn ledger_same(s0: Ledger, s1: Ledger) -> bool {
    &&& s1.sessions@ == s0.sessions@
    &&& s1.users@ == s0.users@
    &&& s1.merchants@ == s0.merchants@
    &&& s1.next_id == s0.next_id
}

pub open spec fn cache_same(c0: Cache, c1: Cache) -> bool {
    forall|k: Seq<char>| c1.entry(k) == c0.entry(k)
}

/// The session view replayed for idempotency key `key`.
pub open spec fn replay(c: Cache, key: Seq<char>) -> Option<PaymentInitResponse> {
    replayable(c.get_spec(idempotency_key_spec(key)))
}

pub open spec fn fails_with_nothing_changed(s0: Ledger, c0: Cache, s1: Ledger, c1: Cache, r: Result<PaymentInitResponse, AppError>) -> bool {
    r is Err && ledger_same(s0, s1) && cache_same(c0, c1)
}

/// The store part of initiating with merchant `m` resolved: the session of
/// (user, key) is reused if present, else created.
pub open spec fn initiate_rows(s0: Ledger, s1: Ledger, user: u128, req: PaymentInitRequest, now: i64, m: Merchant, r: Result<PaymentInitResponse, AppError>) -> bool {
    let key = req.idempotency_key@;
    &&& s1.users@ == s0.users@
    &&& s1.merchants@ == s0.merchants@
    &&& match key_index(s0.sessions@, user, key) {
        Some(i) => {
            &&& s1.sessions@ == s0.sessions@
            &&& s1.next_id == s0.next_id
            &&& r is Ok
            &&& init_view(r->Ok_0, s0.sessions@[i], m)
        },
        None => if s0.next_id == u128::MAX {
            &&& s1.sessions@ == s0.sessions@
            &&& s1.next_id == s0.next_id
            &&& r is Err
            &&& r->Err_0 is Internal
            &&& r->Err_0.msg() == "database error"@
        } else {
            &&& s1.sessions@.len() == s0.sessions@.len() + 1
            &&& s1.sessions@.drop_last() == s0.sessions@
            &&& fresh_row(s1.sessions@.last(), s0.next_id, user, m.id, req.amount, key, now)
            &&& s1.next_id == s0.next_id + 1
            &&& r is Ok
            &&& init_view(r->Ok_0, s1.sessions@.last(), m)
        },
    }
}

/// The cache part of initiating with merchant `m` resolved: the merchant is
/// cached under its code (for `MERCHANT_TTL_SECS` when it came from the
/// store) and a successful view under the idempotency key for
/// `IDEMPOTENCY_TTL_SECS`.
pub open spec fn initiate_cache(c0: Cache, c1: Cache, req: PaymentInitRequest, m: Merchant, r: Result<PaymentInitResponse, AppError>) -> bool {
    let ik = idempotency_key_spec(req.idempotency_key@);
    let mk = merchant_qr_key_spec(req.qr_data@);
    &&& forall|k: Seq<char>| k != ik && k != mk ==> c1.entry(k) == c0.entry(k)
    &&& c1.get_spec(mk) == Some(CachedValue::Merchant(m))
    &&& c1.entry(mk) == if merchant_hit(c0, mk) {
        c0.entry(mk)
    } else {
        Some((CachedValue::Merchant(m), MERCHANT_TTL_SECS))
    }
    &&& r is Ok ==> c1.entry(ik) == Some((CachedValue::Session(r->Ok_0), IDEMPOTENCY_TTL_SECS))
    &&& r is Err ==> c1.entry(ik) == c0.entry(ik)
}

/// Initiation, from store `s0` and cache `c0` to `s1`, `c1` and result `r`.
pub open spec fn initiate_post(
    s0: Ledger,
    c0: Cache,
    user: u128,
    req: PaymentInitRequest,
    now: i64,
    s1: Ledger,
    c1: Cache,
    r: Result<PaymentInitResponse, AppError>,
) -> bool {
    if req.amount <= 0 {
        &&& fails_with_nothing_changed(s0, c0, s1, c1, r)
        &&& r->Err_0 is BadRequest
        &&& r->Err_0.msg() == "amount must be greater than 0"@
    } else if req.idempotency_key@.len() == 0 {
        &&& fails_with_nothing_changed(s0, c0, s1, c1, r)
        &&& r->Err_0 is BadRequest
        &&& r->Err_0.msg() == "idempotency key must not be empty"@
    } else if replay(c0, req.idempotency_key@) is Some {
        &&& r == Ok::<PaymentInitResponse, AppError>(replay(c0, req.idempotency_key@)->Some_0)
        &&& ledger_same(s0, s1)
        &&& cache_same(c0, c1)
    } else {
        match resolve_by_code(s0, c0, req.qr_data@) {
            None => {
                &&& fails_with_nothing_changed(s0, c0, s1, c1, r)
                &&& r->Err_0 is NotFound
                &&& r->Err_0.msg() == "not found"@
            },
            Some(m) => {
                &&& initiate_rows(s0, s1, user, req, now, m, r)
                &&& initiate_cache(c0, c1, req, m, r)
            },
        }
    }
}

proof fn lemma_cache_keys_differ(key: Seq<char>, code: Seq<char>)
    ensures
        idempotency_key_spec(key) != merchant_qr_key_spec(code),
{
    reveal_strlit("payment:idempotency:");
    reveal_strlit("merchant:qr:");
    assert(idempotency_key_spec(key)[0] != merchant_qr_key_spec(code)[0]);
}

/// Opens a payment session for `user`, or replays the one that the same
/// idempotency key already opened.
pub fn initiate_payment(store: &mut Ledger, cache: &mut Cache, user_id: u128, req: &PaymentInitRequest, now: i64) -> (r: Result<PaymentInitResponse, AppError>)
    requires
        old(store).wf(),
    ensures
        final(store).wf(),
        initiate_post(*old(store), *old(cache), user_id, *req, now, *final(store), *final(cache), r),
{
    if let Err(e) = validate_initiation(req) {
        return Err(e);
    }
    let ik = idempotency_key(req.idempotency_key.as_str());
    if let Some(v) = cached_view(cache.get(&ik)) {
        return Ok(v);
    }
    proof {
        lemma_cache_keys_differ(req.idempotency_key@, req.qr_data@);
    }
    let m = match get_merchant_by_qr(store, cache, &req.qr_data) {
        Ok(m) => m,
        Err(e) => return Err(e),
    };
    let t = match store.insert_session(user_id, m.id, req.amount, &req.idempotency_key, now) {
        Ok(i) => {
            proof {
                assert(i as int == store.sessions@.len() - 1);
            }
            store.sessions[i].duplicate()
        },
        Err(e) => {
            if let Some(err) = insert_failure(e) {
                return Err(err);
            }
            match store.find_session_by_key(user_id, &req.idempotency_key) {
                Some(i) => store.sessions[i].duplicate(),
                None => return Err(recovery_failure(DbFailure::RowNotFound)),
            }
        },
    };
    let view = session_view(&t, &m);
    cache.set(&ik, CachedValue::Session(view.duplicate()), IDEMPOTENCY_TTL_SECS);
    Ok(view)
}

pub open spec fn exec_fails(s0: Ledger, c0: Cache, s1: Ledger, c1: Cache, r: Result<PaymentExecuteResponse, AppError>) -> bool {
    r is Err && ledger_same(s0, s1) && cache_same(c0, c1)
}

/// The settlement of session `i` of account `u` with reference `reference`.
pub open spec fn settles(s0: Ledger, c0: Cache, i: int, u: int, reference: Seq<char>, now: i64, s1: Ledger, c1: Cache, r: Result<PaymentExecuteResponse, AppError>) -> bool {
    let t = s0.sessions@[i];
    let ik = idempotency_key_spec(t.idempotency_key@);
    &&& s1.sessions@ == s0.sessions@.update(i, s1.sessions@[i])
    &&& settled_from(t, s1.sessions@[i], reference, now)
    &&& s1.users@ == s0.users@.update(u, s1.users@[u])
    &&& debited_from(s0.users@[u], s1.users@[u], t.amount, now)
    &&& s1.merchants@ == s0.merchants@
    &&& s1.next_id == s0.next_id
    &&& r is Ok
    &&& success_view(r->Ok_0, s1.sessions@[i])
    &&& c1.entry(ik) is None
    &&& forall|k: Seq<char>| k != ik ==> c1.entry(k) == c0.entry(k)
}

/// Execution of `req` by `user`, with settlement token `token`.
pub open spec fn execute_post(
    s0: Ledger,
    c0: Cache,
    user: u128,
    req: PaymentExecuteRequest,
    token: Seq<char>,
    now: i64,
    s1: Ledger,
    c1: Cache,
    r: Result<PaymentExecuteResponse, AppError>,
) -> bool {
    match session_index(s0.sessions@, req.session_id, user) {
        None => exec_fails(s0, c0, s1, c1, r) && r->Err_0 is NotFound && r->Err_0.msg() == "not found"@,
        Some(i) => {
            let t = s0.sessions@[i];
            if !t.status.executable() {
                &&& r is Ok
                &&& already_view(r->Ok_0, t)
                &&& ledger_same(s0, s1)
                &&& cache_same(c0, c1)
            } else {
                match user_index(s0.users@, user) {
                    None => exec_fails(s0, c0, s1, c1, r) && r->Err_0 is NotFound
                        && r->Err_0.msg() == "not found"@,
                    Some(u) => {
                        let a = s0.users@[u];
                        let verdict = bcrypt_verdict(req.pin@, a.pin_hash@);
                        if verdict == Some(false) {
                            exec_fails(s0, c0, s1, c1, r) && r->Err_0 is Unauthorized
                                && r->Err_0.msg() == "invalid pin"@
                        } else if verdict is None {
                            exec_fails(s0, c0, s1, c1, r) && r->Err_0 is Internal
                                && r->Err_0.msg() == "pin verify failed"@
                        } else if a.balance < t.amount {
                            exec_fails(s0, c0, s1, c1, r) && r->Err_0 is BadRequest
                                && r->Err_0.msg() == "insufficient balance"@
                        } else {
                            settles(s0, c0, i, u, reference_spec(token), now, s1, c1, r)
                        }
                    },
                }
            }
        },
    }
}

/// Executes a session with settlement token `token`: the status check, the
/// PIN check, the balance check, the status change and the debit happen as
/// one step on the store; the replay entry is evicted afterwards.
pub fn execute_payment_with_token(
    store: &mut Ledger,
    cache: &mut Cache,
    user_id: u128,
    req: &PaymentExecuteRequest,
    token: &str,
    now: i64,
) -> (r: Result<PaymentExecuteResponse, AppError>)
    requires
        old(store).wf(),
    ensures
        final(store).wf(),
        execute_post(*old(store), *old(cache), user_id, *req, token@, now, *final(store), *final(cache), r),
{
    let i = match store.find_session(req.session_id, user_id) {
        Some(i) => i,
        None => return Err(AppError::from_sqlx(DbFailure::RowNotFound)),
    };
    let u = store.find_user(user_id);
    let account = match u {
        Some(u) => Some(&store.users[u]),
        None => None,
    };
    let plan = match plan_execution(&store.sessions[i], account, req.pin.as_str(), token, now) {
        Ok(p) => p,
        Err(e) => return Err(e),
    };
    match plan {
        ExecutionPlan::Replay(response) => Ok(response),
        ExecutionPlan::Settle { session, balance, evict_key, response } => {
            let u = match u {
                Some(u) => u,
                None => return Err(AppError::from_sqlx(DbFailure::RowNotFound)),
            };
            store.settle(i, u, session, now);
            cache.delete(&evict_key);
            Ok(response)
        },
    }
}

/// Executes a session, settling it under a fresh random reference.
pub fn execute_payment(store: &mut Ledger, cache: &mut Cache, user_id: u128, req: &PaymentExecuteRequest, now: i64) -> (r: Result<PaymentExecuteResponse, AppError>)
    requires
        old(store).wf(),
    ensures
        final(store).wf(),
        exists|token: Seq<char>|
            token.len() == 36 && execute_post(*old(store), *old(cache), user_id, *req, token, now, *final(store), *final(cache), r),
{
    let token = new_uuid_text();
    execute_payment_with_token(store, cache, user_id, req, token.as_str(), now)
}

} // verus!
