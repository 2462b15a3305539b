//! The memory tier: a cache of tiles bounded by weight.
//!
//! The cache decides by itself what to evict. What this module fixes is how
//! much an entry weighs and the bound that the cache is made with.

use vstd::prelude::*;
use vstd::utf8::encode_utf8;
use std::sync::Arc;
use moka::future::Cache;
use crate::types::{TileData, TileKey};

verus! {

/// moka's `future::Cache`, as a value to hold and hand on.
#[verifier::external_type_specification]
#[verifier::external_body]
#[verifier::reject_recursive_types(K)]
#[verifier::reject_recursive_types(V)]
#[verifier::reject_recursive_types(S)]
pub struct ExCache<K, V, S>(Cache<K, V, S>);

/// What every entry weighs besides its payload and its validator.
pub const ENTRY_OVERHEAD: u32 = 64;

/// The length in bytes of an optional validator, as UTF-8; nothing where there is none.
pub open spec fn validator_len(etag: Option<String>) -> nat {
    match etag {
        Some(text) => encode_utf8(text@).len(),
        None => 0,
    }
}

/// The weight of a tile in the memory tier: payload bytes, validator bytes
/// and the fixed overhead, capped at what a `u32` holds.
pub open spec fn weight_of(tile: TileData) -> u32 {
    let size = tile.data@.len() + validator_len(tile.etag) + ENTRY_OVERHEAD;
    if size > u32::MAX {
        u32::MAX
    } else {
        size as u32
    }
}

/// Weighs a tile for the memory tier.
pub fn entry_weight(tile: &TileData) -> (weight: u32)
    ensures
        weight == weight_of(*tile),
        weight >= ENTRY_OVERHEAD,
{
    let etag_len: usize = match &tile.etag {
        Some(text) => text.as_str().as_bytes().len(),
        None => 0,
    };
    let size: u128 = tile.data.len() as u128 + etag_len as u128 + ENTRY_OVERHEAD as u128;
    if size > u32::MAX as u128 {
        u32::MAX
    } else {
        size as u32
    }
}

/// The weight bound that a cache was made with.
pub uninterp spec fn weight_bound(cache: Cache<TileKey, Arc<TileData>>) -> u64;

/// The builder of moka's `Cache`: a cache with `max_capacity` as its bound,
/// which weighs each entry with `entry_weight`.
#[verifier::external_body]
fn build_cache(max_capacity: u64) -> (cache: Cache<TileKey, Arc<TileData>>)
    ensures
        weight_bound(cache) == max_capacity,
{
    Cache::builder()
        .max_capacity(max_capacity)
        .weigher(|_key: &TileKey, tile: &Arc<TileData>| entry_weight(tile))
        .build()
}

/// `Cache::entry_count` of moka: an estimate of how many entries the cache holds.
#[verifier::external_body]
fn count_entries(cache: &Cache<TileKey, Arc<TileData>>) -> u64 {
    cache.entry_count()
}

/// The memory tier.
pub struct MemoryCache {
    cache: Cache<TileKey, Arc<TileData>>,
}

impl MemoryCache {
    /// The cache that the tier keeps its tiles in.
    pub closed spec fn inner(&self) -> Cache<TileKey, Arc<TileData>> {
        self.cache
    }

    /// The bound on the total weight of the entries.
    pub closed spec fn max_capacity(&self) -> u64 {
        weight_bound(self.cache)
    }

    /// Makes a memory tier that holds tiles up to a total weight of `max_capacity`.
    pub fn new(max_capacity: u64) -> (tier: Self)
        ensures
            tier.max_capacity() == max_capacity,
    {
        MemoryCache { cache: build_cache(max_capacity) }
    }

    /// The cache itself, to look tiles up in and to insert them into.
    pub fn cache(&self) -> (cache: &Cache<TileKey, Arc<TileData>>)
        ensures
            *cache == self.inner(),
    {
        &self.cache
    }

    /// About how many tiles the tier holds; the cache counts lazily.
    pub fn entry_count(&self) -> u64 {
        count_entries(&self.cache)
    }
}

} // verus!
