//! SHA-256 and hash chains.

use vstd::prelude::*;

verus! {

/// The SHA-256 digest of a byte string.
pub uninterp spec fn sha256_digest(data: Seq<u8>) -> Seq<u8>;

/// Calls `solana_sha256_hasher::hash`, which returns the SHA-256 digest of
/// the bytes it is given. The digest is taken on trust as a function of
/// those bytes alone; its thirty-two bytes are the returned array.
#[verifier::external_body]
pub(crate) fn sha256(data: &[u8]) -> (digest: [u8; 32])
    ensures
        digest@ == sha256_digest(data@),
{
    solana_sha256_hasher::hash(data).to_bytes()
}

/// `H` applied `n` times to `start`.
pub open spec fn iterated_hash(start: Seq<u8>, n: nat) -> Seq<u8>
    decreases n,
{
    if n == 0 {
        start
    } else {
        sha256_digest(iterated_hash(start, (n - 1) as nat))
    }
}

/// `H(a)`.
pub fn hash_one(a: &[u8; 32]) -> (digest: [u8; 32])
    ensures
        digest@ == sha256_digest(a@),
{
    sha256(a.as_slice())
}

/// `H(a ∥ b)`.
pub fn hash_pair(a: &[u8; 32], b: &[u8; 32]) -> (digest: [u8; 32])
    ensures
        digest@ == sha256_digest(a@ + b@),
{
    let mut buf: Vec<u8> = Vec::new();
    crate::bytes::push_bytes(&mut buf, a.as_slice());
    crate::bytes::push_bytes(&mut buf, b.as_slice());
    assert(buf@ =~= a@ + b@);
    sha256(buf.as_slice())
}

/// `H(a ∥ b ∥ c)`.
pub fn hash_triple(a: &[u8; 32], b: &[u8; 32], c: &[u8; 32]) -> (digest: [u8; 32])
    ensures
        digest@ == sha256_digest(a@ + b@ + c@),
{
    let mut buf: Vec<u8> = Vec::new();
    crate::bytes::push_bytes(&mut buf, a.as_slice());
    crate::bytes::push_bytes(&mut buf, b.as_slice());
    crate::bytes::push_bytes(&mut buf, c.as_slice());
    assert(buf@ =~= a@ + b@ + c@);
    sha256(buf.as_slice())
}

/// Walks the hash chain `num_hashes` steps from a revealed value towards
/// the commitment.
pub fn hash_provider_commitment(provider_contribution: [u8; 32], num_hashes: u32) -> (out: [u8; 32])
    ensures
        out@ == iterated_hash(provider_contribution@, num_hashes as nat),
{
    let mut current = provider_contribution;
    let mut i: u32 = 0;
    while i < num_hashes
        invariant
            0 <= i <= num_hashes,
            current@ == iterated_hash(provider_contribution@, i as nat),
        decreases num_hashes - i,
    {
        current = hash_one(&current);
        i = i + 1;
    }
    current
}

/// Hashing `a` times and then `b` times is hashing `a + b` times.
pub proof fn lemma_iterated_hash_add(start: Seq<u8>, a: nat, b: nat)
    ensures
        iterated_hash(iterated_hash(start, a), b) == iterated_hash(start, a + b),
    decreases b,
{
    if b > 0 {
        lemma_iterated_hash_add(start, a, (b - 1) as nat);
        assert((a + b - 1) as nat == a + ((b - 1) as nat));
    }
}

} // verus!
