use soroban_sdk::Env;
use vstd::prelude::*;

use crate::hashing::{keccak256, keccak256_of};
use crate::types::Digest;

verus! {

/// The last `n` base-256 digits of `u`, most significant first.
pub open spec fn be_digits(u: nat, n: nat) -> Seq<u8>
    decreases n,
{
    if n == 0 {
        Seq::<u8>::empty()
    } else {
        be_digits(u / 256, (n - 1) as nat).push((u % 256) as u8)
    }
}

/// The 16 big-endian bytes of a contribution in two's complement.
pub open spec fn contribution_bytes(c: i128) -> Seq<u8> {
    be_digits((c as u128) as nat, 16)
}

/// Whether `a` comes strictly before `b` in byte-wise lexicographic order.
pub open spec fn lex_less(a: Seq<u8>, b: Seq<u8>) -> bool {
    exists|k: int|
        0 <= k < a.len() && k < b.len() && #[trigger] a[k] < b[k] && forall|j: int| 0 <= j < k ==> a[j] == b[j]
}

/// The bytes hashed for a Merkle leaf: the investor's address bytes followed by the
/// contribution in 16 big-endian bytes.
pub open spec fn leaf_bytes(address: Seq<u8>, contribution: i128) -> Seq<u8> {
    address + contribution_bytes(contribution)
}

/// The bytes hashed for an inner Merkle node: the smaller digest first.
pub open spec fn node_bytes(current: Seq<u8>, sibling: Seq<u8>) -> Seq<u8> {
    if lex_less(current, sibling) {
        current + sibling
    } else {
        sibling + current
    }
}

/// The 16 big-endian two's-complement bytes of `c`.
pub fn contribution_be_bytes(c: i128) -> (r: Vec<u8>)
    ensures
        r@ == contribution_bytes(c),
{
    let ghost u0: nat = (c as u128) as nat;
    let mut u: u128 = c as u128;
    let mut out: Vec<u8> = Vec::new();
    let mut j: usize = 0;
    while j < 16
        invariant
            0 <= j <= 16,
            be_digits(u0, 16) == be_digits(u as nat, (16 - j) as nat) + out@,
        decreases 16 - j,
    {
        let d: u8 = (u % 256) as u8;
        proof {
            let m: nat = (16 - j) as nat;
            let rest = be_digits((u / 256) as nat, (m - 1) as nat);
            assert(be_digits(u as nat, m) == rest.push(d));
            assert(rest.push(d) + out@ =~= rest + out@.insert(0, d));
        }
        out.insert(0, d);
        u = u / 256;
        j = j + 1;
    }
    assert(be_digits(u as nat, 0) + out@ =~= out@);
    out
}

/// Whether digest `a` sorts strictly before digest `b`, byte by byte.
pub fn digest_less(a: &Digest, b: &Digest) -> (r: bool)
    ensures
        r == lex_less(a@, b@),
{
    let mut i: usize = 0;
    while i < 32
        invariant
            0 <= i <= 32,
            a@.len() == 32,
            b@.len() == 32,
            forall|j: int| 0 <= j < i ==> a@[j] == b@[j],
        decreases 32 - i,
    {
        if a[i] != b[i] {
            let less = a[i] < b[i];
            proof {
                if less {
                    assert(a@[i as int] < b@[i as int]);
                } else {
                    assert forall|k: int| 0 <= k < a@.len() && k < b@.len() && #[trigger] a@[k] < b@[k]
                        implies !(forall|j: int| 0 <= j < k ==> a@[j] == b@[j]) by {
                        if k < i {
                        } else if k == i {
                        } else {
                            assert(!(a@[i as int] == b@[i as int]));
                        }
                    }
                }
            }
            return less;
        }
        i = i + 1;
    }
    assert forall|k: int| 0 <= k < a@.len() && k < b@.len() implies !(#[trigger] a@[k] < b@[k]) by {
        assert(a@[k] == b@[k]);
    }
    false
}

/// Append the bytes of `d` to `v`.
fn push_digest(v: &mut Vec<u8>, d: &Digest)
    ensures
        final(v)@ == old(v)@ + d@,
{
    let ghost start = v@;
    let mut i: usize = 0;
    while i < 32
        invariant
            0 <= i <= 32,
            d@.len() == 32,
            v@ == start + d@.subrange(0, i as int),
        decreases 32 - i,
    {
        v.push(d[i]);
        proof {
            assert(start + d@.subrange(0, i + 1) =~= (start + d@.subrange(0, i as int)).push(d@[i as int]));
        }
        i = i + 1;
    }
    assert(d@.subrange(0, 32) =~= d@);
}

/// The bytes a Merkle leaf hashes: `address` followed by the contribution's 16
/// big-endian bytes.
pub fn merkle_leaf_bytes(address: &Vec<u8>, contribution: i128) -> (r: Vec<u8>)
    ensures
        r@ == leaf_bytes(address@, contribution),
{
    let mut out: Vec<u8> = Vec::new();
    let mut i: usize = 0;
    while i < address.len()
        invariant
            0 <= i <= address.len(),
            out@ == address@.subrange(0, i as int),
        decreases address.len() - i,
    {
        out.push(address[i]);
        proof {
            assert(address@.subrange(0, i + 1) =~= address@.subrange(0, i as int).push(address@[i as int]));
        }
        i = i + 1;
    }
    assert(address@.subrange(0, address@.len() as int) =~= address@);
    let tail = contribution_be_bytes(contribution);
    let mut k: usize = 0;
    while k < tail.len()
        invariant
            0 <= k <= tail.len(),
            out@ == address@ + tail@.subrange(0, k as int),
        decreases tail.len() - k,
    {
        out.push(tail[k]);
        proof {
            assert(address@ + tail@.subrange(0, k + 1) =~= (address@ + tail@.subrange(0, k as int)).push(tail@[k as int]));
        }
        k = k + 1;
    }
    assert(tail@.subrange(0, tail@.len() as int) =~= tail@);
    out
}

/// The bytes an inner Merkle node hashes: the two child digests, smaller first.
pub fn merkle_node_bytes(current: &Digest, sibling: &Digest) -> (r: Vec<u8>)
    ensures
        r@ == node_bytes(current@, sibling@),
{
    let mut out: Vec<u8> = Vec::new();
    if digest_less(current, sibling) {
        push_digest(&mut out, current);
        push_digest(&mut out, sibling);
    } else {
        push_digest(&mut out, sibling);
        push_digest(&mut out, current);
    }
    out
}

/// The digest a proof path leads to from `h`: each step hashes the current digest
/// together with the next sibling, the smaller first.
pub open spec fn proof_root(h: Seq<u8>, proof: Seq<Digest>, n: int) -> Seq<u8>
    decreases n,
{
    if n <= 0 {
        h
    } else {
        keccak256_of(node_bytes(proof_root(h, proof, n - 1), proof[n - 1]@))
    }
}

/// The Merkle root that the leaf of `address` with `contribution` and `proof` lead to.
pub open spec fn merkle_root_of(address: Seq<u8>, contribution: i128, proof: Seq<Digest>) -> Seq<u8> {
    proof_root(keccak256_of(leaf_bytes(address, contribution)), proof, proof.len() as int)
}

/// The root of the empty investor tree: the digest of no bytes.
pub open spec fn empty_root() -> Seq<u8> {
    keccak256_of(Seq::<u8>::empty())
}

/// The Merkle root that `address`'s leaf (`address` followed by the contribution's
/// big-endian bytes) and the sibling digests of `proof` lead to.
pub fn merkle_root_from_proof(env: &Env, address: &Vec<u8>, contribution: i128, proof: &Vec<Digest>) -> (r: Digest)
    ensures
        r@ == merkle_root_of(address@, contribution, proof@),
{
    let leaf = merkle_leaf_bytes(address, contribution);
    let mut current = keccak256(env, &leaf);
    let ghost h = keccak256_of(leaf_bytes(address@, contribution));
    let mut i: usize = 0;
    while i < proof.len()
        invariant
            0 <= i <= proof.len(),
            current@ == proof_root(h, proof@, i as int),
        decreases proof.len() - i,
    {
        let node = merkle_node_bytes(&current, &proof[i]);
        current = keccak256(env, &node);
        i = i + 1;
    }
    current
}

/// The root of the empty investor tree.
pub fn empty_merkle_root(env: &Env) -> (r: Digest)
    ensures
        r@ == empty_root(),
{
    let none: Vec<u8> = Vec::new();
    keccak256(env, &none)
}

} // verus!
