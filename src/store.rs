//! The session store and account ledger: payment sessions, payer accounts
//! and merchants, with the uniqueness of (user, idempotency key) enforced by
//! the store itself.
use vstd::prelude::*;
use crate::error::DbFailure;
use crate::model::{copy_text, Merchant, Transaction, TransactionStatus, User};

verus! {

pub open spec fn has_key(t: Transaction, user: u128, key: Seq<char>) -> bool {
    t.user_id == user && t.idempotency_key@ == key
}

pub open spec fn owned(t: Transaction, id: u128, user: u128) -> bool {
    t.id == id && t.user_id == user
}

/// The position of the session `id` owned by `user`.
pub open spec fn session_index(s: Seq<Transaction>, id: u128, user: u128) -> Option<int> {
    if exists|i: int| 0 <= i < s.len() && owned(s[i], id, user) {
        Some(choose|i: int| 0 <= i < s.len() && owned(s[i], id, user))
    } else {
        None
    }
}

/// The position of the session that `user` opened under `key`.
pub open spec fn key_index(s: Seq<Transaction>, user: u128, key: Seq<char>) -> Option<int> {
    if exists|i: int| 0 <= i < s.len() && has_key(s[i], user, key) {
        Some(choose|i: int| 0 <= i < s.len() && has_key(s[i], user, key))
    } else {
        None
    }
}

/// The position of the account `id`.
pub open spec fn user_index(s: Seq<User>, id: u128) -> Option<int> {
    if exists|i: int| 0 <= i < s.len() && s[i].id == id {
        Some(choose|i: int| 0 <= i < s.len() && s[i].id == id)
    } else {
        None
    }
}

/// The position of the merchant whose scanned code is `code`.
pub open spec fn merchant_code_index(s: Seq<Merchant>, code: Seq<char>) -> Option<int> {
    if exists|i: int| 0 <= i < s.len() && s[i].qr_code_data@ == code {
        Some(choose|i: int| 0 <= i < s.len() && s[i].qr_code_data@ == code)
    } else {
        None
    }
}

/// The position of the merchant `id`.
pub open spec fn merchant_id_index(s: Seq<Merchant>, id: u128) -> Option<int> {
    if exists|i: int| 0 <= i < s.len() && s[i].id == id {
        Some(choose|i: int| 0 <= i < s.len() && s[i].id == id)
    } else {
        None
    }
}

/// A position found in a sequence, as an executable index.
pub open spec fn as_pos(o: Option<int>) -> Option<usize> {
    match o {
        Some(i) => Some(i as usize),
        None => None,
    }
}

/// A new session row as the store creates it.
pub open spec fn fresh_row(t: Transaction, id: u128, user: u128, merchant: u128, amount: i64, key: Seq<char>, now: i64) -> bool {
    &&& t.id == id
    &&& t.user_id == user
    &&& t.merchant_id == merchant
    &&& t.amount == amount
    &&& t.status == TransactionStatus::Initiated
    &&& t.idempotency_key@ == key
    &&& t.upi_txn_id is None
    &&& t.error_message is None
    &&& t.created_at == now
    &&& t.updated_at == now
}

/// `t1` is `t0` settled with the given reference at `now`.
pub open spec fn settled_from(t0: Transaction, t1: Transaction, reference: Seq<char>, now: i64) -> bool {
    &&& t1.id == t0.id
    &&& t1.user_id == t0.user_id
    &&& t1.merchant_id == t0.merchant_id
    &&& t1.amount == t0.amount
    &&& t1.status == TransactionStatus::Success
    &&& t1.idempotency_key == t0.idempotency_key
    &&& t1.upi_txn_id is Some
    &&& t1.upi_txn_id->Some_0@ == reference
    &&& t1.error_message is None
    &&& t1.created_at == t0.created_at
    &&& t1.updated_at == now
}

/// `a1` is `a0` with `amount` debited at `now`.
pub open spec fn debited_from(a0: User, a1: User, amount: i64, now: i64) -> bool {
    &&& a1.id == a0.id
    &&& a1.phone_number == a0.phone_number
    &&& a1.upi_id == a0.upi_id
    &&& a1.name == a0.name
    &&& a1.balance == a0.balance - amount
    &&& a1.pin_hash == a0.pin_hash
    &&& a1.created_at == a0.created_at
    &&& a1.updated_at == now
}

/// Sessions, accounts and merchants.
pub struct Ledger {
    pub sessions: Vec<Transaction>,
    pub users: Vec<User>,
    pub merchants: Vec<Merchant>,
    /// The id the next session gets; all ids so far are below it.
    pub next_id: u128,
}

impl Ledger {
    /// Well-formedness: session ids are unique, (user, idempotency key) is
    /// unique, amounts are positive, a session still `Initiated` carries no
    /// settlement reference, and accounts and merchants are unique by id,
    /// merchants also by scanned code.
    pub open spec fn wf(&self) -> bool {
        let s = self.sessions@;
        let u = self.users@;
        let m = self.merchants@;
        &&& forall|i: int, j: int| 0 <= i < s.len() && 0 <= j < s.len() && s[i].id == s[j].id ==> i == j
        &&& forall|i: int, j: int|
            0 <= i < s.len() && 0 <= j < s.len() && s[i].user_id == s[j].user_id
                && s[i].idempotency_key@ == s[j].idempotency_key@ ==> i == j
        &&& forall|i: int| 0 <= i < s.len() ==> s[i].id < self.next_id
        &&& forall|i: int| 0 <= i < s.len() ==> s[i].amount > 0
        &&& forall|i: int|
            0 <= i < s.len() && s[i].status == TransactionStatus::Initiated ==> s[i].upi_txn_id is None
        &&& forall|i: int, j: int| 0 <= i < u.len() && 0 <= j < u.len() && u[i].id == u[j].id ==> i == j
        &&& forall|i: int, j: int| 0 <= i < m.len() && 0 <= j < m.len() && m[i].id == m[j].id ==> i == j
        &&& forall|i: int, j: int|
            0 <= i < m.len() && 0 <= j < m.len() && m[i].qr_code_data@ == m[j].qr_code_data@ ==> i == j
    }

    pub fn new() -> (r: Self)
        ensures
            r.wf(),
            r.sessions@.len() == 0,
            r.users@.len() == 0,
            r.merchants@.len() == 0,
    {
        Ledger { sessions: Vec::new(), users: Vec::new(), merchants: Vec::new(), next_id: 1 }
    }

    /// Adds an account; an id already present is a unique violation.
    pub fn add_user(&mut self, user: User) -> (r: Result<(), DbFailure>)
        requires
            old(self).wf(),
        ensures
            final(self).wf(),
            user_index(old(self).users@, user.id) is Some <==> r == Err::<(), DbFailure>(DbFailure::UniqueViolation),
            r is Ok ==> final(self).users@ == old(self).users@.push(user),
            r is Err ==> final(self).users@ == old(self).users@,
            final(self).sessions@ == old(self).sessions@,
            final(self).merchants@ == old(self).merchants@,
            final(self).next_id == old(self).next_id,
    {
        if self.find_user(user.id).is_some() {
            return Err(DbFailure::UniqueViolation);
        }
        self.users.push(user);
        Ok(())
    }

    /// Adds a merchant; an id or scanned code already present is a unique
    /// violation.
    pub fn add_merchant(&mut self, merchant: Merchant) -> (r: Result<(), DbFailure>)
        requires
            old(self).wf(),
        ensures
            final(self).wf(),
            merchant_id_index(old(self).merchants@, merchant.id) is Some
                || merchant_code_index(old(self).merchants@, merchant.qr_code_data@) is Some
                <==> r == Err::<(), DbFailure>(DbFailure::UniqueViolation),
            r is Ok ==> final(self).merchants@ == old(self).merchants@.push(merchant),
            r is Err ==> final(self).merchants@ == old(self).merchants@,
            final(self).sessions@ == old(self).sessions@,
            final(self).users@ == old(self).users@,
            final(self).next_id == old(self).next_id,
    {
        if self.find_merchant_by_id(merchant.id).is_some() {
            return Err(DbFailure::UniqueViolation);
        }
        if self.find_merchant_by_code(&merchant.qr_code_data).is_some() {
            return Err(DbFailure::UniqueViolation);
        }
        self.merchants.push(merchant);
        Ok(())
    }

    pub fn find_session(&self, id: u128, user: u128) -> (r: Option<usize>)
        requires
            self.wf(),
        ensures
            r == as_pos(session_index(self.sessions@, id, user)),
            r is Some ==> session_index(self.sessions@, id, user) == Some(r->Some_0 as int),
    {
        let mut i: usize = 0;
        while i < self.sessions.len()
            invariant
                self.wf(),
                i <= self.sessions@.len(),
                forall|j: int| 0 <= j < i ==> !owned(self.sessions@[j], id, user),
            decreases self.sessions@.len() - i,
        {
            if self.sessions[i].id == id && self.sessions[i].user_id == user {
                proof {
                    assert(owned(self.sessions@[i as int], id, user));
                    let j = choose|j: int| 0 <= j < self.sessions@.len() && owned(self.sessions@[j], id, user);
                    assert(self.sessions@[j].id == self.sessions@[i as int].id);
                }
                return Some(i);
            }
            i = i + 1;
        }
        None
    }

    pub fn find_session_by_key(&self, user: u128, key: &String) -> (r: Option<usize>)
        requires
            self.wf(),
        ensures
            r == as_pos(key_index(self.sessions@, user, key@)),
            r is Some ==> key_index(self.sessions@, user, key@) == Some(r->Some_0 as int),
    {
        let mut i: usize = 0;
        while i < self.sessions.len()
            invariant
                self.wf(),
                i <= self.sessions@.len(),
                forall|j: int| 0 <= j < i ==> !has_key(self.sessions@[j], user, key@),
            decreases self.sessions@.len() - i,
        {
            if self.sessions[i].user_id == user && self.sessions[i].idempotency_key == *key {
                proof {
                    assert(has_key(self.sessions@[i as int], user, key@));
                    let j = choose|j: int| 0 <= j < self.sessions@.len() && has_key(self.sessions@[j], user, key@);
                    assert(self.sessions@[j].user_id == self.sessions@[i as int].user_id);
                }
                return Some(i);
            }
            i = i + 1;
        }
        None
    }

    pub fn find_user(&self, id: u128) -> (r: Option<usize>)
        requires
            self.wf(),
        ensures
            r == as_pos(user_index(self.users@, id)),
            r is Some ==> user_index(self.users@, id) == Some(r->Some_0 as int),
    {
        let mut i: usize = 0;
        while i < self.users.len()
            invariant
                self.wf(),
                i <= self.users@.len(),
                forall|j: int| 0 <= j < i ==> self.users@[j].id != id,
            decreases self.users@.len() - i,
        {
            if self.users[i].id == id {
                proof {
                    assert(self.users@[i as int].id == id);
                    let j = choose|j: int| 0 <= j < self.users@.len() && self.users@[j].id == id;
                    assert(self.users@[j].id == self.users@[i as int].id);
                }
                return Some(i);
            }
            i = i + 1;
        }
        None
    }

    pub fn find_merchant_by_code(&self, code: &String) -> (r: Option<usize>)
        requires
            self.wf(),
        ensures
            r == as_pos(merchant_code_index(self.merchants@, code@)),
            r is Some ==> merchant_code_index(self.merchants@, code@) == Some(r->Some_0 as int),
    {
        let mut i: usize = 0;
        while i < self.merchants.len()
            invariant
                self.wf(),
                i <= self.merchants@.len(),
                forall|j: int| 0 <= j < i ==> self.merchants@[j].qr_code_data@ != code@,
            decreases self.merchants@.len() - i,
        {
            if self.merchants[i].qr_code_data == *code {
                proof {
                    assert(self.merchants@[i as int].qr_code_data@ == code@);
                    let j = choose|j: int| 0 <= j < self.merchants@.len() && self.merchants@[j].qr_code_data@ == code@;
                    assert(self.merchants@[j].qr_code_data@ == self.merchants@[i as int].qr_code_data@);
                }
                return Some(i);
            }
            i = i + 1;
        }
        None
    }

    pub fn find_merchant_by_id(&self, id: u128) -> (r: Option<usize>)
        requires
            self.wf(),
        ensures
            r == as_pos(merchant_id_index(self.merchants@, id)),
            r is Some ==> merchant_id_index(self.merchants@, id) == Some(r->Some_0 as int),
    {
        let mut i: usize = 0;
        while i < self.merchants.len()
            invariant
                self.wf(),
                i <= self.merchants@.len(),
                forall|j: int| 0 <= j < i ==> self.merchants@[j].id != id,
            decreases self.merchants@.len() - i,
        {
            if self.merchants[i].id == id {
                proof {
                    assert(self.merchants@[i as int].id == id);
                    let j = choose|j: int| 0 <= j < self.merchants@.len() && self.merchants@[j].id == id;
                    assert(self.merchants@[j].id == self.merchants@[i as int].id);
                }
                return Some(i);
            }
            i = i + 1;
        }
        None
    }

    /// Creates a session in state `Initiated`. A second session for the same
    /// (user, key) is refused as a unique violation; running out of ids is
    /// any other failure.
    pub fn insert_session(&mut self, user: u128, merchant: u128, amount: i64, key: &String, now: i64) -> (r: Result<usize, DbFailure>)
        requires
            old(self).wf(),
            amount > 0,
        ensures
            final(self).wf(),
            final(self).users@ == old(self).users@,
            final(self).merchants@ == old(self).merchants@,
            key_index(old(self).sessions@, user, key@) is Some ==> r == Err::<usize, DbFailure>(DbFailure::UniqueViolation)
                && final(self).sessions@ == old(self).sessions@ && final(self).next_id == old(self).next_id,
            key_index(old(self).sessions@, user, key@) is None && old(self).next_id == u128::MAX ==> r
                == Err::<usize, DbFailure>(DbFailure::Other) && final(self).sessions@ == old(self).sessions@
                && final(self).next_id == old(self).next_id,
            key_index(old(self).sessions@, user, key@) is None && old(self).next_id < u128::MAX ==> {
                &&& r is Ok
                &&& r->Ok_0 as int == old(self).sessions@.len()
                &&& final(self).sessions@.len() == old(self).sessions@.len() + 1
                &&& final(self).sessions@.drop_last() == old(self).sessions@
                &&& fresh_row(final(self).sessions@.last(), old(self).next_id, user, merchant, amount, key@, now)
                &&& final(self).next_id == old(self).next_id + 1
            },
    {
        if self.find_session_by_key(user, key).is_some() {
            return Err(DbFailure::UniqueViolation);
        }
        if self.next_id == u128::MAX {
            return Err(DbFailure::Other);
        }
        let row = Transaction {
            id: self.next_id,
            user_id: user,
            merchant_id: merchant,
            amount,
            status: TransactionStatus::Initiated,
            idempotency_key: key.clone(),
            upi_txn_id: None,
            error_message: None,
            created_at: now,
            updated_at: now,
        };
        let ghost before = self.sessions@;
        let pos = self.sessions.len();
        self.sessions.push(row);
        self.next_id = self.next_id + 1;
        proof {
            assert(self.sessions@.drop_last() =~= before);
            assert forall|i: int, j: int|
                0 <= i < self.sessions@.len() && 0 <= j < self.sessions@.len()
                    && self.sessions@[i].user_id == self.sessions@[j].user_id
                    && self.sessions@[i].idempotency_key@ == self.sessions@[j].idempotency_key@ implies i == j by {
                if i < before.len() && j == before.len() {
                    assert(has_key(before[i], user, key@));
                }
                if j < before.len() && i == before.len() {
                    assert(has_key(before[j], user, key@));
                }
            }
        }
        Ok(pos)
    }

    /// Replaces session `i` by its settled form `row` and debits its amount
    /// from account `u`, as one step.
    pub fn settle(&mut self, i: usize, u: usize, row: Transaction, now: i64)
        requires
            old(self).wf(),
            i < old(self).sessions@.len(),
            u < old(self).users@.len(),
            old(self).users@[u as int].balance >= old(self).sessions@[i as int].amount,
            row.upi_txn_id is Some,
            settled_from(old(self).sessions@[i as int], row, row.upi_txn_id->Some_0@, now),
        ensures
            final(self).wf(),
            final(self).sessions@ == old(self).sessions@.update(i as int, row),
            final(self).users@ == old(self).users@.update(u as int, final(self).users@[u as int]),
            debited_from(old(self).users@[u as int], final(self).users@[u as int], old(self).sessions@[i as int].amount, now),
            final(self).merchants@ == old(self).merchants@,
            final(self).next_id == old(self).next_id,
    {
        let t = &self.sessions[i];
        let amount = t.amount;
        let a = &self.users[u];
        let acct = User {
            id: a.id,
            phone_number: a.phone_number.clone(),
            upi_id: a.upi_id.clone(),
            name: a.name.clone(),
            balance: a.balance - amount,
            pin_hash: a.pin_hash.clone(),
            created_at: a.created_at,
            updated_at: now,
        };
        self.sessions.set(i, row);
        self.users.set(u, acct);
        proof {
            assert(self.sessions@ =~= old(self).sessions@.update(i as int, self.sessions@[i as int]));
            assert(self.users@ =~= old(self).users@.update(u as int, self.users@[u as int]));
        }
    }
}

} // verus!
