//! Cache entries that expire.

use vstd::prelude::*;
use crate::gate_model::elapsed;

verus! {

/// A cached value with its time of creation and its time to live, both in
/// nanoseconds.
#[derive(Clone, Debug)]
pub struct CacheEntry<T> {
    pub value: T,
    pub created_at: u64,
    pub ttl: u64,
}

impl<T> CacheEntry<T> {
    /// An entry created at `now` that lives for `ttl`.
    pub fn new(value: T, ttl: u64, now: u64) -> (r: Self)
        ensures
            r.value == value,
            r.created_at == now,
            r.ttl == ttl,
    {
        CacheEntry { value, created_at: now, ttl }
    }

    /// The entry is older at `now` than its time to live. An entry exactly
    /// as old as its time to live has not expired.
    pub fn is_expired(&self, now: u64) -> (r: bool)
        ensures
            r == (elapsed(now as nat, self.created_at as nat) > self.ttl),
    {
        let age: u64 = if now >= self.created_at {
            now - self.created_at
        } else {
            0
        };
        age > self.ttl
    }
}

} // verus!
