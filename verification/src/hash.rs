//! The mining digest and the difficulty order: a candidate qualifies when its
//! keccak-256 digest, read as a big-endian integer, is at most the target.

use vstd::prelude::*;

verus! {

/// The keccak-256 digest of a byte string. The digest function itself lives
/// in the hashing crate and is relied upon, not restated here.
pub uninterp spec fn keccak256(data: Seq<u8>) -> Seq<u8>;

/// The candidate digest that mining derives from a challenge, a miner's
/// public key and a nonce: keccak-256 of their concatenation, the nonce in
/// little-endian bytes.
pub open spec fn mine_digest(challenge: Seq<u8>, pubkey: Seq<u8>, nonce: u64) -> Seq<u8> {
    keccak256(challenge + pubkey + vstd::bytes::spec_u64_to_le_bytes(nonce))
}

/// Relies on solana_program::keccak::hashv: the keccak-256 digest of the
/// concatenation of the given byte strings; a `Hash` holds its 32 bytes.
#[verifier::external_body]
pub(crate) fn mine_hash(challenge: &[u8; 32], pubkey: &[u8; 32], nonce: u64) -> (r: [u8; 32])
    ensures
        r@ == keccak256(challenge@ + pubkey@ + vstd::bytes::spec_u64_to_le_bytes(nonce)),
{
    solana_program::keccak::hashv(&[
        challenge.as_slice(),
        pubkey.as_slice(),
        nonce.to_le_bytes().as_slice(),
    ])
    .to_bytes()
}

/// Byte-wise lexicographic order on equal-length byte strings; on 32-byte
/// digests this is exactly the big-endian numeric order that the difficulty
/// target is compared under.
pub open spec fn bytes_le(a: Seq<u8>, b: Seq<u8>) -> bool
    decreases a.len(),
{
    if a.len() == 0 {
        true
    } else if a[0] < b[0] {
        true
    } else if a[0] > b[0] {
        false
    } else {
        bytes_le(a.skip(1), b.skip(1))
    }
}

/// Whether the candidate digest `h` meets the difficulty target `d`:
/// treated as big-endian integers, `h <= d`.
pub fn hash_meets_target(h: &[u8; 32], d: &[u8; 32]) -> (r: bool)
    ensures
        r == bytes_le(h@, d@),
{
    let mut i: usize = 0;
    proof {
        assert(h@.skip(0) =~= h@);
        assert(d@.skip(0) =~= d@);
    }
    while i < 32
        invariant
            i <= 32,
            bytes_le(h@, d@) == bytes_le(h@.skip(i as int), d@.skip(i as int)),
        decreases 32 - i,
    {
        if h[i] < d[i] {
            assert(bytes_le(h@.skip(i as int), d@.skip(i as int)));
            return true;
        }
        if h[i] > d[i] {
            assert(!bytes_le(h@.skip(i as int), d@.skip(i as int)));
            return false;
        }
        assert(h@.skip(i as int).skip(1) =~= h@.skip(i + 1));
        assert(d@.skip(i as int).skip(1) =~= d@.skip(i + 1));
        i = i + 1;
    }
    assert(h@.skip(32) =~= Seq::<u8>::empty());
    true
}

/// Equality of two 32-byte strings.
pub fn bytes32_eq(a: &[u8; 32], b: &[u8; 32]) -> (r: bool)
    ensures
        r == (a@ == b@),
{
    let mut i: usize = 0;
    while i < 32
        invariant
            i <= 32,
            forall|j: int| 0 <= j < i ==> a@[j] == b@[j],
        decreases 32 - i,
    {
        if a[i] != b[i] {
            return false;
        }
        i = i + 1;
    }
    proof {
        assert(a@ =~= b@);
    }
    true
}

/// An all-ones target accepts every digest: under the loosest possible
/// difficulty the very first nonce tried already qualifies.
pub proof fn lemma_max_target_accepts_all(h: Seq<u8>, d: Seq<u8>)
    requires
        h.len() == d.len(),
        forall|i: int| 0 <= i < d.len() ==> d[i] == 0xff,
    ensures
        bytes_le(h, d),
    decreases h.len(),
{
    if h.len() == 0 {
    } else {
        assert(d[0] == 0xff);
        if h[0] < 0xff {
        } else {
            assert(forall|i: int| 0 <= i < d.skip(1).len() ==> d.skip(1)[i] == 0xff);
            lemma_max_target_accepts_all(h.skip(1), d.skip(1));
        }
    }
}

/// An all-zero target accepts exactly the all-zero digest: the tightest
/// possible difficulty is met by one digest out of 2^256, so a search against
/// it is expected never to finish.
pub proof fn lemma_zero_target_accepts_only_zero(h: Seq<u8>, d: Seq<u8>)
    requires
        h.len() == d.len(),
        forall|i: int| 0 <= i < d.len() ==> d[i] == 0,
    ensures
        bytes_le(h, d) <==> h =~= d,
    decreases h.len(),
{
    if h.len() == 0 {
    } else {
        assert(d[0] == 0);
        assert(forall|i: int| 0 <= i < d.skip(1).len() ==> d.skip(1)[i] == 0);
        lemma_zero_target_accepts_only_zero(h.skip(1), d.skip(1));
        if h[0] == 0 {
            if h.skip(1) =~= d.skip(1) {
                assert(h =~= d) by {
                    assert forall|i: int| 0 <= i < h.len() implies h[i] == d[i] by {
                        if i > 0 {
                            assert(h.skip(1)[i - 1] == d.skip(1)[i - 1]);
                        }
                    }
                }
            } else {
                assert(!(h =~= d)) by {
                    let k = choose|k: int|
                        0 <= k < h.skip(1).len() && h.skip(1)[k] != d.skip(1)[k];
                    assert(h[k + 1] != d[k + 1]);
                }
            }
        }
    }
}

/// Whether `hash` is the digest that `(challenge, signer, nonce)` derives to
/// and also meets the difficulty target: the condition under which a mining
/// result may be submitted.
pub open spec fn valid_mine_result(
    hash: Seq<u8>,
    challenge: Seq<u8>,
    signer: Seq<u8>,
    nonce: u64,
    difficulty: Seq<u8>,
) -> bool {
    hash == mine_digest(challenge, signer, nonce) && bytes_le(hash, difficulty)
}

} // verus!
