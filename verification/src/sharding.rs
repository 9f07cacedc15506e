use vstd::prelude::*;

use crate::types::AccountId;

verus! {

/// Index of an investor-storage shard.
pub type ShardId = u32;

/// Totals reported by a set of shards.
#[derive(Copy, Clone, Debug, PartialEq, Eq, Structural)]
pub struct ShardAggregateState {
    pub total_contributions: i128,
    pub unique_investor_count: u32,
    pub shard_count: u32,
}

/// Sharding parameters.
#[derive(Copy, Clone, Debug, PartialEq, Eq, Structural)]
pub struct ShardingConfig {
    pub max_shards: u32,
    pub hash_seed: u32,
    pub target_investors_per_shard: u32,
}

impl Default for ShardingConfig {
    /// Up to 1024 shards, seed 0, about 100 investors per shard.
    fn default() -> (c: Self)
        ensures
            c == (ShardingConfig { max_shards: 1024, hash_seed: 0, target_investors_per_shard: 100 }),
    {
        ShardingConfig { max_shards: 1024, hash_seed: 0, target_investors_per_shard: 100 }
    }
}

/// The 32 routing-hash bytes of an address. The routing hash is a fixed placeholder
/// (bytes `0, 1, ..., 31`) until a real hash function is bound.
pub open spec fn shard_hash_bytes(investor: AccountId) -> Seq<u8> {
    Seq::new(32, |i: int| i as u8)
}

/// The little-endian `u32` of four bytes.
pub open spec fn le_u32(b0: u8, b1: u8, b2: u8, b3: u8) -> int {
    b0 + 256 * b1 + 65536 * b2 + 16777216 * b3
}

/// Compute [`shard_hash_bytes`].
fn blake3_hash(investor: AccountId) -> (h: Vec<u8>)
    ensures
        h@ == shard_hash_bytes(investor),
{
    let mut h: Vec<u8> = Vec::new();
    let mut i: u8 = 0;
    while i < 32
        invariant
            i <= 32,
            h@.len() == i,
            forall|k: int| 0 <= k < i ==> h@[k] == k as u8,
        decreases 32 - i,
    {
        h.push(i);
        i += 1;
    }
    assert(h@ =~= shard_hash_bytes(investor));
    h
}

/// The shard of `investor` among `shard_count` shards: the little-endian `u32` of
/// the first four routing-hash bytes modulo `shard_count` (0 when there are no
/// shards).
pub fn compute_shard_id(investor: AccountId, shard_count: u32) -> (r: ShardId)
    ensures
        r == if shard_count == 0 {
            0
        } else {
            let h = shard_hash_bytes(investor);
            le_u32(h[0], h[1], h[2], h[3]) % (shard_count as int)
        },
{
    if shard_count == 0 {
        return 0;
    }
    let h = blake3_hash(investor);
    let v: u32 = (h[0] as u32) + 256 * (h[1] as u32) + 65536 * (h[2] as u32) + 16777216 * (h[3] as u32);
    v % shard_count
}

/// Totals over `shard_count` shards; no shard reports anything yet, so the totals
/// are zero.
pub fn aggregate_shard_state(shard_count: u32) -> (r: ShardAggregateState)
    ensures
        r == (ShardAggregateState { total_contributions: 0, unique_investor_count: 0, shard_count }),
{
    ShardAggregateState { total_contributions: 0, unique_investor_count: 0, shard_count }
}

} // verus!
