//! The cache: namespaced keys, and a key-value store with per-entry expiry
//! that the engine reads through. It only ever accelerates; the session store
//! stays the authority.
use vstd::prelude::*;
use crate::model::{Merchant, PaymentInitResponse};

verus! {

/// Seconds a resolved merchant stays cached.
pub const MERCHANT_TTL_SECS: u64 = 3600;

/// Seconds an initiation view stays cached for replay.
pub const IDEMPOTENCY_TTL_SECS: u64 = 600;

pub open spec fn merchant_qr_key_spec(code: Seq<char>) -> Seq<char> {
    "merchant:qr:"@ + code
}

pub open spec fn merchant_id_key_spec(id_text: Seq<char>) -> Seq<char> {
    "merchant:id:"@ + id_text
}

pub open spec fn idempotency_key_spec(key: Seq<char>) -> Seq<char> {
    "payment:idempotency:"@ + key
}

/// Cache key of a merchant looked up by its scanned code.
pub fn merchant_qr_key(code: &str) -> (r: String)
    ensures
        r@ == merchant_qr_key_spec(code@),
{
    let k = String::from_str("merchant:qr:");
    k.concat(code)
}

/// Cache key of a merchant looked up by id, from the id's UUID text.
pub fn merchant_id_key(id_text: &str) -> (r: String)
    ensures
        r@ == merchant_id_key_spec(id_text@),
{
    let k = String::from_str("merchant:id:");
    k.concat(id_text)
}

/// Cache key under which an initiation view is kept for replay.
pub fn idempotency_key(key: &str) -> (r: String)
    ensures
        r@ == idempotency_key_spec(key@),
{
    let k = String::from_str("payment:idempotency:");
    k.concat(key)
}

/// A value the cache can hold.
#[derive(Clone, Debug)]
pub enum CachedValue {
    Merchant(Merchant),
    Session(PaymentInitResponse),
}

impl CachedValue {
    pub fn duplicate(&self) -> (r: Self)
        ensures
            r == *self,
    {
        match self {
            CachedValue::Merchant(m) => CachedValue::Merchant(m.duplicate()),
            CachedValue::Session(s) => CachedValue::Session(s.duplicate()),
        }
    }
}

#[derive(Clone, Debug)]
pub struct CacheEntry {
    pub key: String,
    pub value: CachedValue,
    pub ttl_secs: u64,
}

/// What a sequence of writes leaves visible under `key`: the latest one,
/// with its lifetime in seconds.
pub open spec fn lookup(entries: Seq<CacheEntry>, key: Seq<char>) -> Option<(CachedValue, u64)>
    decreases entries.len(),
{
    if entries.len() == 0 {
        None
    } else if entries.last().key@ == key {
        Some((entries.last().value, entries.last().ttl_secs))
    } else {
        lookup(entries.drop_last(), key)
    }
}

proof fn lemma_lookup_push(s: Seq<CacheEntry>, e: CacheEntry, key: Seq<char>)
    ensures
        lookup(s.push(e), key) == if e.key@ == key { Some((e.value, e.ttl_secs)) } else { lookup(s, key) },
{
    assert(s.push(e).drop_last() =~= s);
}

/// An in-process cache.
pub struct Cache {
    entries: Vec<CacheEntry>,
}

impl Cache {
    /// The value visible under `key`, with the lifetime it was written with.
    pub closed spec fn entry(&self, key: Seq<char>) -> Option<(CachedValue, u64)> {
        lookup(self.entries@, key)
    }

    /// The value visible under `key`.
    pub open spec fn get_spec(&self, key: Seq<char>) -> Option<CachedValue> {
        match self.entry(key) {
            Some(e) => Some(e.0),
            None => None,
        }
    }

    /// The lifetime, in seconds, of the entry under `key`.
    pub open spec fn ttl_spec(&self, key: Seq<char>) -> Option<u64> {
        match self.entry(key) {
            Some(e) => Some(e.1),
            None => None,
        }
    }

    pub fn new() -> (r: Self)
        ensures
            forall|k: Seq<char>| r.entry(k) is None,
    {
        Cache { entries: Vec::new() }
    }

    pub fn get(&self, key: &String) -> (r: Option<CachedValue>)
        ensures
            r == self.get_spec(key@),
    {
        let mut i: usize = self.entries.len();
        proof {
            assert(self.entries@.take(i as int) =~= self.entries@);
        }
        while i > 0
            invariant
                i <= self.entries@.len(),
                lookup(self.entries@, key@) == lookup(self.entries@.take(i as int), key@),
            decreases i,
        {
            let e = &self.entries[i - 1];
            proof {
                assert(self.entries@.take(i as int).drop_last() =~= self.entries@.take(i - 1));
            }
            if e.key == *key {
                return Some(e.value.duplicate());
            }
            i = i - 1;
        }
        None
    }

    /// The lifetime of the entry under `key`.
    pub fn ttl(&self, key: &String) -> (r: Option<u64>)
        ensures
            r == self.ttl_spec(key@),
    {
        let mut i: usize = self.entries.len();
        proof {
            assert(self.entries@.take(i as int) =~= self.entries@);
        }
        while i > 0
            invariant
                i <= self.entries@.len(),
                lookup(self.entries@, key@) == lookup(self.entries@.take(i as int), key@),
            decreases i,
        {
            let e = &self.entries[i - 1];
            proof {
                assert(self.entries@.take(i as int).drop_last() =~= self.entries@.take(i - 1));
            }
            if e.key == *key {
                return Some(e.ttl_secs);
            }
            i = i - 1;
        }
        None
    }

    pub fn set(&mut self, key: &String, value: CachedValue, ttl_secs: u64)
        ensures
            final(self).entry(key@) == Some((value, ttl_secs)),
            forall|k: Seq<char>| k != key@ ==> final(self).entry(k) == old(self).entry(k),
    {
        let e = CacheEntry { key: key.clone(), value, ttl_secs };
        proof {
            assert forall|k: Seq<char>| true implies lookup(self.entries@.push(e), k) == if e.key@ == k {
                Some((e.value, e.ttl_secs))
            } else {
                lookup(self.entries@, k)
            } by {
                lemma_lookup_push(self.entries@, e, k);
            }
        }
        self.entries.push(e);
    }

    pub fn delete(&mut self, key: &String)
        ensures
            final(self).entry(key@) is None,
            forall|k: Seq<char>| k != key@ ==> final(self).entry(k) == old(self).entry(k),
    {
        let mut kept: Vec<CacheEntry> = Vec::new();
        let mut i: usize = 0;
        while i < self.entries.len()
            invariant
                i <= self.entries@.len(),
                lookup(kept@, key@) is None,
                forall|k: Seq<char>| k != key@ ==> lookup(kept@, k) == lookup(self.entries@.take(i as int), k),
            decreases self.entries@.len() - i,
        {
            let e = &self.entries[i];
            let ghost before = kept@;
            proof {
                assert(self.entries@.take(i + 1).drop_last() =~= self.entries@.take(i as int));
                assert forall|k: Seq<char>| true implies lookup(self.entries@.take(i + 1), k) == if e.key@ == k {
                    Some((e.value, e.ttl_secs))
                } else {
                    lookup(self.entries@.take(i as int), k)
                } by {
                    lemma_lookup_push(self.entries@.take(i as int), *e, k);
                    assert(self.entries@.take(i as int).push(*e) =~= self.entries@.take(i + 1));
                }
            }
            if e.key != *key {
                let c = CacheEntry { key: e.key.clone(), value: e.value.duplicate(), ttl_secs: e.ttl_secs };
                kept.push(c);
                proof {
                    assert forall|k: Seq<char>| true implies lookup(kept@, k) == if c.key@ == k {
                        Some((c.value, c.ttl_secs))
                    } else {
                        lookup(before, k)
                    } by {
                        lemma_lookup_push(before, c, k);
                    }
                }
            }
            i = i + 1;
        }
        proof {
            assert(self.entries@.take(i as int) =~= self.entries@);
        }
        self.entries = kept;
    }
}

} // verus!
