//! Merchant lookup, reading through the cache in front of the store.
use vstd::prelude::*;
use crate::auth::{id_text, uuid_text};
use crate::cache::{
    merchant_id_key, merchant_id_key_spec, merchant_qr_key, merchant_qr_key_spec, Cache, CachedValue,
    MERCHANT_TTL_SECS,
};
use crate::error::{AppError, DbFailure};
use crate::model::Merchant;
use crate::store::{merchant_code_index, merchant_id_index, Ledger};

verus! {

/// The merchant a lookup under cache key `key` yields: a cached merchant if
/// there is one, else the store's row `found`.
pub open spec fn through_cache(c: Cache, key: Seq<char>, found: Option<Merchant>) -> Option<Merchant> {
    match c.get_spec(key) {
        Some(CachedValue::Merchant(m)) => Some(m),
        _ => found,
    }
}

pub open spec fn by_code(s: Ledger, code: Seq<char>) -> Option<Merchant> {
    match merchant_code_index(s.merchants@, code) {
        Some(i) => Some(s.merchants@[i]),
        None => None,
    }
}

pub open spec fn by_id(s: Ledger, id: u128) -> Option<Merchant> {
    match merchant_id_index(s.merchants@, id) {
        Some(i) => Some(s.merchants@[i]),
        None => None,
    }
}

/// The merchant that scanning `code` resolves to.
pub open spec fn resolve_by_code(s: Ledger, c: Cache, code: Seq<char>) -> Option<Merchant> {
    through_cache(c, merchant_qr_key_spec(code), by_code(s, code))
}

/// Whether the cache holds a merchant under `key`.
pub open spec fn merchant_hit(c: Cache, key: Seq<char>) -> bool {
    c.get_spec(key) matches Some(CachedValue::Merchant(_))
}

/// The cache after a read-through under `key` where the store answered
/// `stored`: on a hit nothing changes; on a miss a merchant the store found
/// is cached under `key` for `MERCHANT_TTL_SECS`; nothing else changes.
pub open spec fn read_through(c0: Cache, c1: Cache, key: Seq<char>, stored: Option<Merchant>) -> bool {
    &&& forall|k: Seq<char>| k != key ==> c1.entry(k) == c0.entry(k)
    &&& c1.entry(key) == if merchant_hit(c0, key) {
        c0.entry(key)
    } else {
        match stored {
            Some(m) => Some((CachedValue::Merchant(m), MERCHANT_TTL_SECS)),
            None => c0.entry(key),
        }
    }
}

/// Cache hit first, else the store; a miss that the store answers is cached
/// for an hour (`MERCHANT_TTL_SECS`). No merchant is `NotFound`.
pub fn get_merchant_by_qr(store: &Ledger, cache: &mut Cache, qr_data: &String) -> (r: Result<Merchant, AppError>)
    requires
        store.wf(),
    ensures
        resolve_by_code(*store, *old(cache), qr_data@) is Some ==> r == Ok::<Merchant, AppError>(
            resolve_by_code(*store, *old(cache), qr_data@)->Some_0,
        ),
        resolve_by_code(*store, *old(cache), qr_data@) is None ==> r is Err && r->Err_0 is NotFound
            && r->Err_0.msg() == "not found"@,
        read_through(*old(cache), *final(cache), merchant_qr_key_spec(qr_data@), by_code(*store, qr_data@)),
{
    let key = merchant_qr_key(qr_data.as_str());
    if let Some(CachedValue::Merchant(m)) = cache.get(&key) {
        return Ok(m);
    }
    match store.find_merchant_by_code(qr_data) {
        None => Err(AppError::from_sqlx(DbFailure::RowNotFound)),
        Some(i) => {
            proof {
                assert(merchant_code_index(store.merchants@, qr_data@) == Some(i as int));
            }
            let m = store.merchants[i].duplicate();
            cache.set(&key, CachedValue::Merchant(m.duplicate()), MERCHANT_TTL_SECS);
            Ok(m)
        },
    }
}

/// The merchant with id `id`.
pub open spec fn resolve_by_id(s: Ledger, c: Cache, id: u128) -> Option<Merchant> {
    through_cache(c, merchant_id_key_spec(uuid_text(id)), by_id(s, id))
}

/// As `get_merchant_by_qr`, keyed by merchant id.
pub fn get_merchant_by_id(store: &Ledger, cache: &mut Cache, merchant_id: u128) -> (r: Result<Merchant, AppError>)
    requires
        store.wf(),
    ensures
        resolve_by_id(*store, *old(cache), merchant_id) is Some ==> r == Ok::<Merchant, AppError>(
            resolve_by_id(*store, *old(cache), merchant_id)->Some_0,
        ),
        resolve_by_id(*store, *old(cache), merchant_id) is None ==> r is Err && r->Err_0 is NotFound
            && r->Err_0.msg() == "not found"@,
        read_through(*old(cache), *final(cache), merchant_id_key_spec(uuid_text(merchant_id)), by_id(*store, merchant_id)),
{
    let text = id_text(merchant_id);
    let key = merchant_id_key(text.as_str());
    if let Some(CachedValue::Merchant(m)) = cache.get(&key) {
        return Ok(m);
    }
    match store.find_merchant_by_id(merchant_id) {
        None => Err(AppError::from_sqlx(DbFailure::RowNotFound)),
        Some(i) => {
            proof {
                assert(merchant_id_index(store.merchants@, merchant_id) == Some(i as int));
            }
            let m = store.merchants[i].duplicate();
            cache.set(&key, CachedValue::Merchant(m.duplicate()), MERCHANT_TTL_SECS);
            Ok(m)
        },
    }
}

} // verus!
