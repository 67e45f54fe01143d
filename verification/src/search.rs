//! The nonce search: scan ranges of the 64-bit nonce space for a nonce whose
//! digest meets the difficulty target. The space is cut into one contiguous
//! range per worker; a caller may scan the ranges in turn or hand each to its
//! own thread, the contracts hold either way.

use vstd::arithmetic::div_mod::{lemma_fundamental_div_mod, lemma_mod_bound};
use vstd::arithmetic::mul::lemma_mul_inequality;
use vstd::prelude::*;

use crate::hash::{bytes_le, hash_meets_target, mine_digest, mine_hash};

verus! {

/// A nonce qualifies when the digest it derives to meets the difficulty.
pub open spec fn qualifies(
    challenge: Seq<u8>,
    pubkey: Seq<u8>,
    difficulty: Seq<u8>,
    nonce: u64,
) -> bool {
    bytes_le(mine_digest(challenge, pubkey, nonce), difficulty)
}

/// One found solution: the digest, the nonce that produced it, and the
/// challenge it was produced against. The nonce is only meaningful with
/// respect to that challenge: once the ledger's challenge for the wallet has
/// advanced past it, the result is stale and must be discarded.
#[derive(Clone, Copy, Debug, PartialEq, Eq)]
pub struct MiningResult {
    pub hash: [u8; 32],
    pub nonce: u64,
    pub challenge: [u8; 32],
}

/// A result that may be submitted for `(challenge, pubkey)` under
/// `difficulty`: it carries that challenge, its digest re-derives from the
/// challenge, the key and the nonce, and the digest is within the target.
pub open spec fn result_matches(
    r: MiningResult,
    challenge: Seq<u8>,
    pubkey: Seq<u8>,
    difficulty: Seq<u8>,
) -> bool {
    &&& r.challenge@ == challenge
    &&& r.hash@ == mine_digest(challenge, pubkey, r.nonce)
    &&& bytes_le(r.hash@, difficulty)
}

/// Scan nonces from `start` (inclusive) to `end` (exclusive) in order and
/// return the first that qualifies, with its digest.
pub fn search_range(
    challenge: &[u8; 32],
    pubkey: &[u8; 32],
    difficulty: &[u8; 32],
    start: u64,
    end: u64,
) -> (r: Option<([u8; 32], u64)>)
    requires
        start <= end,
    ensures
        match r {
            Some(found) => {
                &&& start <= found.1 < end
                &&& found.0@ == mine_digest(challenge@, pubkey@, found.1)
                &&& bytes_le(found.0@, difficulty@)
                &&& forall|m: u64|
                    start <= m < found.1 ==> !qualifies(challenge@, pubkey@, difficulty@, m)
            },
            None => forall|m: u64|
                start <= m < end ==> !qualifies(challenge@, pubkey@, difficulty@, m),
        },
{
    let mut nonce: u64 = start;
    while nonce < end
        invariant
            start <= nonce <= end,
            forall|m: u64| start <= m < nonce ==> !qualifies(challenge@, pubkey@, difficulty@, m),
        decreases end - nonce,
    {
        let h = mine_hash(challenge, pubkey, nonce);
        if hash_meets_target(&h, difficulty) {
            return Some((h, nonce));
        }
        nonce = nonce + 1;
    }
    None
}

/// The width of one worker's range when the nonce space is cut into
/// `threads` contiguous ranges.
pub open spec fn range_width(threads: u64) -> int {
    u64::MAX as int / threads as int
}

/// The end of the region the partitioned search covers: `threads` ranges of
/// `range_width(threads)` nonces each, starting at zero. The few nonces above
/// it (fewer than `threads`) fall to no worker.
pub open spec fn covered_end(threads: u64) -> int {
    threads as int * range_width(threads)
}

/// The covered region never outgrows the nonce space.
proof fn lemma_covered_end_fits(threads: u64)
    requires
        threads >= 1,
    ensures
        covered_end(threads) <= u64::MAX as int,
{
    lemma_fundamental_div_mod(u64::MAX as int, threads as int);
    lemma_mod_bound(u64::MAX as int, threads as int);
}

/// The contiguous nonce range of worker `t` out of `threads`: ranges tile the
/// covered region without gap or overlap, each `range_width(threads)` wide.
pub fn partition_bounds(t: u64, threads: u64) -> (r: (u64, u64))
    requires
        threads >= 1,
        t < threads,
    ensures
        r.0 == t as int * range_width(threads),
        r.1 == (t + 1) as int * range_width(threads),
        r.0 <= r.1 <= covered_end(threads),
{
    proof {
        lemma_covered_end_fits(threads);
        lemma_mul_inequality(t as int + 1, threads as int, u64::MAX as int / threads as int);
        assert((t as int + 1) * (u64::MAX as int / threads as int) == t as int * (u64::MAX as int
            / threads as int) + (u64::MAX as int / threads as int)) by (nonlinear_arith);
    }
    let width = u64::MAX / threads;
    let start = t * width;
    (start, start + width)
}

/// What the partitioned search reports: a found nonce is the first of the
/// whole space that qualifies, it lies in the covered region, and its digest
/// re-derives and meets the target; no find means no nonce of the covered
/// region qualifies.
pub open spec fn search_outcome(
    challenge: Seq<u8>,
    pubkey: Seq<u8>,
    difficulty: Seq<u8>,
    threads: u64,
    r: Option<(Seq<u8>, u64)>,
) -> bool {
    match r {
        Some(found) => {
            &&& found.1 < covered_end(threads)
            &&& found.0 == mine_digest(challenge, pubkey, found.1)
            &&& bytes_le(found.0, difficulty)
            &&& forall|m: u64| m < found.1 ==> !qualifies(challenge, pubkey, difficulty, m)
        },
        None => forall|m: u64|
            m < covered_end(threads) ==> !qualifies(challenge, pubkey, difficulty, m),
    }
}

/// Cut the nonce space into `threads` contiguous, disjoint ranges and scan
/// them in order; return the first qualifying nonce with its digest.
pub fn find_nonce(
    challenge: &[u8; 32],
    pubkey: &[u8; 32],
    difficulty: &[u8; 32],
    threads: u64,
) -> (r: Option<([u8; 32], u64)>)
    requires
        threads >= 1,
    ensures
        search_outcome(
            challenge@,
            pubkey@,
            difficulty@,
            threads,
            (match r {
                Some(found) => Some((found.0@, found.1)),
                None => None,
            }),
        ),
{
    let width = u64::MAX / threads;
    let mut t: u64 = 0;
    while t < threads
        invariant
            t <= threads,
            threads >= 1,
            width == range_width(threads),
            forall|m: u64|
                m < t as int * width as int ==> !qualifies(challenge@, pubkey@, difficulty@, m),
        decreases threads - t,
    {
        proof {
            lemma_covered_end_fits(threads);
            lemma_mul_inequality(t as int + 1, threads as int, width as int);
            assert((t as int + 1) * width as int == t as int * width as int + width as int)
                by (nonlinear_arith);
        }
        let start = t * width;
        let end = start + width;
        match search_range(challenge, pubkey, difficulty, start, end) {
            Some(found) => {
                return Some(found);
            },
            None => {},
        }
        t = t + 1;
    }
    None
}

/// When exactly one nonce of the whole space qualifies and it lies in the
/// covered region, the partitioned search returns precisely that nonce and
/// its digest — whatever the thread count. This is the partition-correctness
/// law: cutting the space differently cannot change which nonce is found.
pub proof fn lemma_partition_finds_unique_nonce(
    challenge: Seq<u8>,
    pubkey: Seq<u8>,
    difficulty: Seq<u8>,
    threads: u64,
    r: Option<(Seq<u8>, u64)>,
    n0: u64,
)
    requires
        threads >= 1,
        search_outcome(challenge, pubkey, difficulty, threads, r),
        qualifies(challenge, pubkey, difficulty, n0),
        n0 < covered_end(threads),
        forall|m: u64| qualifies(challenge, pubkey, difficulty, m) ==> m == n0,
    ensures
        r == Some((mine_digest(challenge, pubkey, n0), n0)),
{
    match r {
        Some(found) => {
            assert(qualifies(challenge, pubkey, difficulty, found.1));
        },
        None => {
            assert(!qualifies(challenge, pubkey, difficulty, n0));
        },
    }
}

/// No nonce of the covered region qualifies for this pair: the partitioned
/// search over `threads` workers cannot find anything for it.
pub open spec fn no_covered_solution(
    challenge: Seq<u8>,
    pubkey: Seq<u8>,
    difficulty: Seq<u8>,
    threads: u64,
) -> bool {
    forall|m: u64| m < covered_end(threads) ==> !qualifies(challenge, pubkey, difficulty, m)
}

/// Search for every `(challenge, pubkey)` pair in turn; one result per pair,
/// in the same order. Reports nothing at all when some pair has no qualifying
/// nonce anywhere in the covered region.
pub fn search_batch(
    pairs: &Vec<([u8; 32], [u8; 32])>,
    difficulty: &[u8; 32],
    threads: u64,
) -> (r: Option<Vec<MiningResult>>)
    requires
        threads >= 1,
    ensures
        match r {
            Some(v) => {
                &&& v.len() == pairs.len()
                &&& forall|i: int|
                    0 <= i < v.len() ==> result_matches(
                        v[i],
                        pairs@[i].0@,
                        pairs@[i].1@,
                        difficulty@,
                    )
            },
            None => exists|i: int|
                0 <= i < pairs.len() && #[trigger] no_covered_solution(
                    pairs@[i].0@,
                    pairs@[i].1@,
                    difficulty@,
                    threads,
                ),
        },
{
    let mut out: Vec<MiningResult> = Vec::new();
    let mut w: usize = 0;
    while w < pairs.len()
        invariant
            w <= pairs.len(),
            threads >= 1,
            out.len() == w,
            forall|i: int|
                0 <= i < w ==> result_matches(out@[i], pairs@[i].0@, pairs@[i].1@, difficulty@),
        decreases pairs.len() - w,
    {
        let (challenge, pubkey) = pairs[w];
        match find_nonce(&challenge, &pubkey, difficulty, threads) {
            Some((h, nonce)) => {
                out.push(MiningResult { hash: h, nonce, challenge });
            },
            None => {
                proof {
                    assert(no_covered_solution(
                        pairs@[w as int].0@,
                        pairs@[w as int].1@,
                        difficulty@,
                        threads,
                    ));
                }
                return None;
            },
        }
        w = w + 1;
    }
    Some(out)
}

} // verus!
