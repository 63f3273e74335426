//! Properties of the engine that span several calls, proved from the
//! transition relations that `initiate_payment` and `execute_payment`
//! guarantee.
use vstd::prelude::*;
use crate::auth::bcrypt_verdict;
use crate::cache::Cache;
use crate::error::AppError;
use crate::merchant::resolve_by_code;
use crate::model::{PaymentExecuteRequest, PaymentExecuteResponse, PaymentInitRequest, PaymentInitResponse, TransactionStatus};
use crate::payment::{execute_post, init_request_ok, initiate_post, ledger_same, replay};
use crate::store::{has_key, key_index, owned, session_index, user_index, Ledger};

verus! {

/// Initiating twice with the same arguments gives the same answer, and so
/// the same session: the second call replays the first. A valid request (a
/// positive amount, a key, a known merchant) succeeds.
pub proof fn lemma_initiation_idempotent(
    s0: Ledger, c0: Cache, s1: Ledger, c1: Cache, r1: Result<PaymentInitResponse, AppError>,
    s2: Ledger, c2: Cache, r2: Result<PaymentInitResponse, AppError>,
    user: u128, req: PaymentInitRequest, now1: i64, now2: i64,
)
    requires
        s0.wf(),
        init_request_ok(req),
        resolve_by_code(s0, c0, req.qr_data@) is Some,
        s0.next_id < u128::MAX,
        initiate_post(s0, c0, user, req, now1, s1, c1, r1),
        initiate_post(s1, c1, user, req, now2, s2, c2, r2),
    ensures
        r1 is Ok,
        r2 == r1,
        r2->Ok_0.session_id == r1->Ok_0.session_id,
        ledger_same(s1, s2),
{
    assert(replay(c1, req.idempotency_key@) == Some(r1->Ok_0));
}

/// Initiations with the same (user, key) that both miss the replay cache,
/// as racing calls do, answer with the same session, and the store then
/// holds exactly one session for that (user, key).
pub proof fn lemma_racing_initiations_share_session(
    s0: Ledger, c0: Cache, s1: Ledger, c1: Cache, r1: Result<PaymentInitResponse, AppError>,
    c_seen: Cache, s2: Ledger, c2: Cache, r2: Result<PaymentInitResponse, AppError>,
    user: u128, req1: PaymentInitRequest, req2: PaymentInitRequest, now1: i64, now2: i64,
)
    requires
        s0.wf(),
        s1.wf(),
        s2.wf(),
        req1.idempotency_key@ == req2.idempotency_key@,
        replay(c0, req1.idempotency_key@) is None,
        replay(c_seen, req2.idempotency_key@) is None,
        initiate_post(s0, c0, user, req1, now1, s1, c1, r1),
        initiate_post(s1, c_seen, user, req2, now2, s2, c2, r2),
        r1 is Ok,
        r2 is Ok,
    ensures
        r2->Ok_0.session_id == r1->Ok_0.session_id,
        key_index(s2.sessions@, user, req1.idempotency_key@) is Some,
        forall|j: int|
            0 <= j < s2.sessions@.len() && has_key(s2.sessions@[j], user, req1.idempotency_key@) ==> j
                == key_index(s2.sessions@, user, req1.idempotency_key@)->Some_0,
{
    let key = req1.idempotency_key@;
    let row: int = match key_index(s0.sessions@, user, key) {
        Some(i) => i,
        None => s0.sessions@.len() as int,
    };
    assert(0 <= row < s1.sessions@.len());
    assert(has_key(s1.sessions@[row], user, key));
    assert(s1.sessions@[row].id == r1->Ok_0.session_id);
    let j = key_index(s1.sessions@, user, key)->Some_0;
    assert(has_key(s1.sessions@[j], user, key));
    assert(j == row);
    assert(s2.sessions@ == s1.sessions@);
}

/// Executing a payable session debits the amount once and settles it;
/// executing it again, even with another PIN or cache, changes nothing and
/// answers with the same settlement reference.
pub proof fn lemma_exactly_once_debit(
    s0: Ledger, c0: Cache, s1: Ledger, c1: Cache, r1: Result<PaymentExecuteResponse, AppError>,
    c_seen: Cache, s2: Ledger, c2: Cache, r2: Result<PaymentExecuteResponse, AppError>,
    user: u128, req1: PaymentExecuteRequest, req2: PaymentExecuteRequest,
    token1: Seq<char>, token2: Seq<char>, now1: i64, now2: i64, i: int, u: int,
)
    requires
        s0.wf(),
        s1.wf(),
        req2.session_id == req1.session_id,
        session_index(s0.sessions@, req1.session_id, user) == Some(i),
        s0.sessions@[i].status == TransactionStatus::Initiated,
        user_index(s0.users@, user) == Some(u),
        s0.users@[u].balance >= s0.sessions@[i].amount,
        bcrypt_verdict(req1.pin@, s0.users@[u].pin_hash@) == Some(true),
        execute_post(s0, c0, user, req1, token1, now1, s1, c1, r1),
        execute_post(s1, c_seen, user, req2, token2, now2, s2, c2, r2),
    ensures
        r1 is Ok,
        s1.users@[u].balance == s0.users@[u].balance - s0.sessions@[i].amount,
        s1.sessions@[i].status == TransactionStatus::Success,
        r1->Ok_0.upi_txn_id is Some,
        r2 is Ok,
        s2.users@ == s1.users@,
        s2.sessions@ == s1.sessions@,
        r2->Ok_0.upi_txn_id == r1->Ok_0.upi_txn_id,
{
    assert(owned(s1.sessions@[i], req1.session_id, user));
    let j = session_index(s1.sessions@, req1.session_id, user)->Some_0;
    assert(owned(s1.sessions@[j], req1.session_id, user));
    assert(j == i);
}

/// No execution leaves a balance that it changed negative. When the balance
/// does not cover a payable session's amount, execution fails with
/// `BadRequest` and changes nothing.
pub proof fn lemma_balance_floor(
    s0: Ledger, c0: Cache, s1: Ledger, c1: Cache, r: Result<PaymentExecuteResponse, AppError>,
    user: u128, req: PaymentExecuteRequest, token: Seq<char>, now: i64,
)
    requires
        s0.wf(),
        execute_post(s0, c0, user, req, token, now, s1, c1, r),
    ensures
        s1.users@.len() == s0.users@.len(),
        forall|k: int| 0 <= k < s1.users@.len() ==> s1.users@[k].balance == s0.users@[k].balance || s1.users@[k].balance >= 0,
        ({
            match (session_index(s0.sessions@, req.session_id, user), user_index(s0.users@, user)) {
                (Some(i), Some(u)) => s0.sessions@[i].status.executable()
                    && bcrypt_verdict(req.pin@, s0.users@[u].pin_hash@) == Some(true)
                    && s0.users@[u].balance < s0.sessions@[i].amount ==> r is Err && r->Err_0 is BadRequest
                    && ledger_same(s0, s1),
                _ => true,
            }
        }),
{
}

/// A wrong PIN fails `Unauthorized` and changes nothing: the balance stays
/// and the session stays `Initiated`, with no settlement reference.
pub proof fn lemma_wrong_pin_no_effect(
    s0: Ledger, c0: Cache, s1: Ledger, c1: Cache, r: Result<PaymentExecuteResponse, AppError>,
    user: u128, req: PaymentExecuteRequest, token: Seq<char>, now: i64, i: int, u: int,
)
    requires
        s0.wf(),
        session_index(s0.sessions@, req.session_id, user) == Some(i),
        s0.sessions@[i].status == TransactionStatus::Initiated,
        user_index(s0.users@, user) == Some(u),
        bcrypt_verdict(req.pin@, s0.users@[u].pin_hash@) == Some(false),
        execute_post(s0, c0, user, req, token, now, s1, c1, r),
    ensures
        r is Err,
        r->Err_0 is Unauthorized,
        s1.users@[u].balance == s0.users@[u].balance,
        s1.sessions@[i].status == TransactionStatus::Initiated,
        s1.sessions@[i].upi_txn_id is None,
        ledger_same(s0, s1),
{
}

} // verus!
