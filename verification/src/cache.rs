//! The response cache: a content-addressed, size-bounded cache of buffered
//! chat responses with a per-entry time-to-live. Only buffered chat
//! responses are ever cached; see `fingerprint` for the key.
use vstd::prelude::*;

use std::time::Duration;

use crate::dto::ChatCompletionResponse;

verus! {

/// The cache never holds more entries than this.
pub const RESPONSE_CACHE_CAPACITY: u64 = 10000;

/// A cached response expires this many seconds after its insert.
pub const RESPONSE_CACHE_TTL_SECS: u64 = 60;

#[verifier::external_type_specification]
#[verifier::external_body]
#[verifier::reject_recursive_types(K)]
#[verifier::reject_recursive_types(V)]
#[verifier::reject_recursive_types(S)]
pub struct ExMokaCache<K, V, S>(moka::sync::Cache<K, V, S>);

/// Relies on moka's cache builder: a size-bounded cache with the given
/// capacity and per-entry time-to-live. The builder panics only on a
/// time-to-live of over a thousand years, which the bound here excludes.
#[verifier::external_body]
fn moka_cache_new(max_capacity: u64, ttl_secs: u64) -> (r: moka::sync::Cache<
    String,
    ChatCompletionResponse,
>)
    requires
        ttl_secs <= 31536000,
{
    moka::sync::Cache::builder().max_capacity(max_capacity).time_to_live(
        Duration::from_secs(ttl_secs),
    ).build()
}

/// Relies on moka's `Cache::get`: a clone of the value standing under the
/// key, or `None`. What comes back depends on cache history, the clock and
/// eviction, so nothing more is promised of it.
#[verifier::external_body]
fn moka_cache_get(
    cache: &moka::sync::Cache<String, ChatCompletionResponse>,
    key: &String,
) -> (r: Option<ChatCompletionResponse>) {
    cache.get(key)
}

/// Relies on moka's `Cache::insert`: stores the value under the key,
/// overwriting any previous entry. Observable only through later gets.
#[verifier::external_body]
fn moka_cache_insert(
    cache: &moka::sync::Cache<String, ChatCompletionResponse>,
    key: &String,
    value: &ChatCompletionResponse,
) {
    cache.insert(key.clone(), value.clone());
}

/// The cache of buffered chat responses.
pub struct ResponseCache {
    cache: moka::sync::Cache<String, ChatCompletionResponse>,
}

impl ResponseCache {
    /// A fresh cache with the configured capacity and time-to-live.
    pub fn new() -> (r: ResponseCache) {
        ResponseCache { cache: moka_cache_new(RESPONSE_CACHE_CAPACITY, RESPONSE_CACHE_TTL_SECS) }
    }

    /// The live cached response under `key`, if one is present.
    pub fn get(&self, key: &String) -> (r: Option<ChatCompletionResponse>) {
        moka_cache_get(&self.cache, key)
    }

    /// Cache `value` under `key`, overwriting.
    pub fn insert(&self, key: &String, value: &ChatCompletionResponse) {
        moka_cache_insert(&self.cache, key, value)
    }
}

} // verus!
