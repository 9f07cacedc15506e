use soroban_sdk::Env;
use vstd::prelude::*;

use crate::constants::INVESTOR_BUCKET_COUNT;
use crate::escrow::LiquifactEscrow;
use crate::hashing::{sha256, sha256_of};
use crate::math::clamp_i128;

verus! {

broadcast use vstd::std_specs::hash::group_hash_axioms;

/// The unsigned big-endian value of the bytes `b`.
pub open spec fn be_value(b: Seq<u8>) -> nat
    decreases b.len(),
{
    if b.len() == 0 {
        0
    } else {
        be_value(b.drop_last()) * 256 + (b.last() as nat)
    }
}

/// `256` to the power `i`.
pub open spec fn pow256(i: nat) -> nat
    decreases i,
{
    if i == 0 {
        1
    } else {
        256 * pow256((i - 1) as nat)
    }
}

/// The bucket of an address whose SHA-256 digest is `h`: the first eight digest bytes
/// read as a big-endian `u64`, modulo [`INVESTOR_BUCKET_COUNT`].
pub open spec fn bucket_of(h: Seq<u8>) -> u32 {
    (be_value(h.take(8)) % (INVESTOR_BUCKET_COUNT as nat)) as u32
}

/// The bucket of the address whose strkey bytes are `address_bytes`.
pub fn investor_bucket_index(env: &Env, address_bytes: &Vec<u8>) -> (r: u32)
    ensures
        r == bucket_of(sha256_of(address_bytes@)),
        r < INVESTOR_BUCKET_COUNT,
{
    let h = sha256(env, address_bytes);
    let ghost hs = h@;
    let mut v: u64 = 0;
    let mut i: usize = 0;
    while i < 8
        invariant
            0 <= i <= 8,
            hs == h@,
            hs.len() == 32,
            v as nat == be_value(hs.take(i as int)),
            (v as nat) < pow256(i as nat),
        decreases 8 - i,
    {
        let b = h[i];
        assert(hs.take(i + 1).drop_last() =~= hs.take(i as int));
        let ghost p = pow256(i as nat);
        assert(pow256((i + 1) as nat) == 256 * p);
        assert(p <= pow256(7)) by {
            lemma_pow256_mono(i as nat, 7);
        }
        assert(pow256(7) == 72057594037927936) by {
            reveal_with_fuel(pow256, 8);
        }
        assert((v as nat) * 256 + (b as nat) < 256 * p) by (nonlinear_arith)
            requires
                (v as nat) < p,
                (b as nat) < 256,
        ;
        assert(256 * p <= 18446744073709551616) by (nonlinear_arith)
            requires
                p <= 72057594037927936,
        ;
        v = v * 256 + b as u64;
        i += 1;
    }
    (v % (INVESTOR_BUCKET_COUNT as u64)) as u32
}

proof fn lemma_pow256_mono(i: nat, j: nat)
    requires
        i <= j,
    ensures
        pow256(i) <= pow256(j),
    decreases j,
{
    if i < j {
        lemma_pow256_mono(i, (j - 1) as nat);
    }
}

impl LiquifactEscrow {
    /// The aggregate of bucket `b` (0 when absent).
    pub open spec fn bucket_total(self, b: u32) -> i128 {
        if self.buckets@.contains_key(b) {
            self.buckets@[b]
        } else {
            0
        }
    }

    /// `new`'s buckets are `self`'s with `amount` added to bucket `b` (saturating).
    pub open spec fn bucket_credited(self, new: Self, b: u32, amount: i128) -> bool {
        new.buckets@ == self.buckets@.insert(b, clamp_i128(self.bucket_total(b) + amount))
    }

    /// `new`'s buckets are `self`'s with `amount` taken from bucket `b` (saturating).
    pub open spec fn bucket_debited(self, new: Self, b: u32, amount: i128) -> bool {
        new.buckets@ == self.buckets@.insert(b, clamp_i128(self.bucket_total(b) - amount))
    }

    /// The aggregate of bucket `b`.
    pub fn bucket_value(&self, b: u32) -> (r: i128)
        ensures
            r == self.bucket_total(b),
    {
        match self.buckets.get(&b) {
            Some(v) => *v,
            None => 0,
        }
    }

    /// The contributions aggregated in bucket `bucket` (0 for an empty or unknown
    /// bucket).
    pub fn get_investor_contribution_bucket(&self, bucket: u32) -> (r: i128)
        ensures
            r == self.bucket_total(bucket),
    {
        self.bucket_value(bucket)
    }

    /// Add `amount` to bucket `b` (saturating); nothing else changes.
    pub(crate) fn credit_bucket(&mut self, b: u32, amount: i128)
        ensures
            old(self).bucket_credited(*final(self), b, amount),
            *final(self) == (LiquifactEscrow { buckets: final(self).buckets, ..*old(self) }),
    {
        let v = self.bucket_value(b);
        let nv = crate::math::sat_add(v, amount);
        self.buckets.insert(b, nv);
    }

    /// Take `amount` from bucket `b` (saturating); nothing else changes.
    pub(crate) fn debit_bucket(&mut self, b: u32, amount: i128)
        ensures
            old(self).bucket_debited(*final(self), b, amount),
            *final(self) == (LiquifactEscrow { buckets: final(self).buckets, ..*old(self) }),
    {
        let v = self.bucket_value(b);
        let nv = crate::math::sat_sub(v, amount);
        self.buckets.insert(b, nv);
    }
}

} // verus!
