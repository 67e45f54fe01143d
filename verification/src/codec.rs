//! The accelerator pipe protocol. A request is one control byte, the 32-byte
//! difficulty, then one `(challenge, pubkey)` pair of 2 x 32 bytes per wallet.
//! A response is one 40-byte record per requested pair, in request order:
//! 32 bytes of digest then the nonce in 8 little-endian bytes; a truncated
//! trailing record is discarded.

use vstd::bytes::{spec_u64_from_le_bytes, u64_from_le_bytes};
use vstd::prelude::*;
use vstd::slice::{slice_index_get, slice_subrange};

use crate::search::MiningResult;

verus! {

/// The wire form of a list of `(challenge, pubkey)` pairs: each pair as its
/// 64 bytes, in order.
pub open spec fn pairs_bytes(pairs: Seq<([u8; 32], [u8; 32])>) -> Seq<u8>
    decreases pairs.len(),
{
    if pairs.len() == 0 {
        Seq::empty()
    } else {
        pairs[0].0@ + pairs[0].1@ + pairs_bytes(pairs.skip(1))
    }
}

/// The wire form of a whole request: control byte, difficulty, pairs.
pub open spec fn request_bytes(
    control: u8,
    difficulty: Seq<u8>,
    pairs: Seq<([u8; 32], [u8; 32])>,
) -> Seq<u8> {
    seq![control] + difficulty + pairs_bytes(pairs)
}

/// Appending one pair to the list appends its 64 bytes to the wire form.
proof fn lemma_pairs_bytes_push(s: Seq<([u8; 32], [u8; 32])>, x: ([u8; 32], [u8; 32]))
    ensures
        pairs_bytes(s.push(x)) =~= pairs_bytes(s) + x.0@ + x.1@,
    decreases s.len(),
{
    if s.len() == 0 {
        assert(s.push(x).skip(1) =~= Seq::<([u8; 32], [u8; 32])>::empty());
        assert(s.push(x)[0] == x);
        assert(pairs_bytes(Seq::<([u8; 32], [u8; 32])>::empty()) =~= Seq::<u8>::empty());
        assert(pairs_bytes(s.push(x)) =~= pairs_bytes(s) + x.0@ + x.1@);
    } else {
        assert(s.push(x).skip(1) =~= s.skip(1).push(x));
        lemma_pairs_bytes_push(s.skip(1), x);
        assert(s.push(x)[0] == s[0]);
        assert(pairs_bytes(s.push(x)) =~= pairs_bytes(s) + x.0@ + x.1@);
    }
}

/// Serialize a search request for the accelerator's input stream.
pub fn encode_request(
    control: u8,
    difficulty: &[u8; 32],
    pairs: &Vec<([u8; 32], [u8; 32])>,
) -> (r: Vec<u8>)
    ensures
        r@ == request_bytes(control, difficulty@, pairs@),
{
    let mut out: Vec<u8> = Vec::new();
    out.push(control);
    out.extend_from_slice(difficulty.as_slice());
    assert(out@ =~= seq![control] + difficulty@);
    let mut w: usize = 0;
    while w < pairs.len()
        invariant
            w <= pairs.len(),
            out@ == seq![control] + difficulty@ + pairs_bytes(pairs@.take(w as int)),
        decreases pairs.len() - w,
    {
        let (challenge, pubkey) = &pairs[w];
        out.extend_from_slice(challenge.as_slice());
        out.extend_from_slice(pubkey.as_slice());
        proof {
            assert(pairs@.take(w + 1) =~= pairs@.take(w as int).push(pairs@[w as int]));
            lemma_pairs_bytes_push(pairs@.take(w as int), pairs@[w as int]);
            assert(out@ =~= seq![control] + difficulty@ + pairs_bytes(pairs@.take(w + 1)));
        }
        w = w + 1;
    }
    proof {
        assert(pairs@.take(pairs@.len() as int) =~= pairs@);
    }
    out
}

/// Whether `r` is exactly the `i`-th record of the response `output`, read
/// against the `i`-th requested challenge: digest from the record's first 32
/// bytes, nonce from its last 8 little-endian bytes.
pub open spec fn record_parsed(r: MiningResult, output: Seq<u8>, challenge: [u8; 32], i: int) -> bool {
    &&& r.hash@ == output.subrange(40 * i, 40 * i + 32)
    &&& r.nonce == spec_u64_from_le_bytes(output.subrange(40 * i + 32, 40 * i + 40))
    &&& r.challenge == challenge
}

/// Parse the accelerator's output stream: one result per full 40-byte record,
/// in order, each paired with the challenge it was requested for; a truncated
/// trailing record yields nothing, and records beyond the requested pairs are
/// ignored.
pub fn parse_response(output: &[u8], challenges: &Vec<[u8; 32]>) -> (r: Vec<MiningResult>)
    ensures
        r.len() == if output@.len() as int / 40 < challenges@.len() as int {
            output@.len() as int / 40
        } else {
            challenges@.len() as int
        },
        forall|i: int|
            0 <= i < r.len() ==> #[trigger] record_parsed(r@[i], output@, challenges@[i], i),
{
    let full_records: usize = output.len() / 40;
    let count: usize = if full_records < challenges.len() {
        full_records
    } else {
        challenges.len()
    };
    let mut out: Vec<MiningResult> = Vec::new();
    let mut i: usize = 0;
    while i < count
        invariant
            i <= count,
            count <= output@.len() / 40,
            count <= challenges@.len(),
            output@.len() <= usize::MAX,
            out.len() == i,
            forall|j: int|
                0 <= j < i ==> #[trigger] record_parsed(out@[j], output@, challenges@[j], j),
        decreases count - i,
    {
        proof {
            assert(40 * (i as int) + 40 <= 40 * (count as int)) by (nonlinear_arith)
                requires
                    i < count,
            ;
            assert(40 * (count as int) <= output@.len()) by (nonlinear_arith)
                requires
                    count <= output@.len() / 40,
            ;
        }
        let record = slice_subrange(output, 40 * i, 40 * i + 40);
        let mut hash = [0u8; 32];
        let mut b: usize = 0;
        while b < 32
            invariant
                b <= 32,
                record@.len() == 40,
                forall|k: int| 0 <= k < b ==> hash@[k] == record@[k],
            decreases 32 - b,
        {
            hash[b] = *slice_index_get(record, b);
            b = b + 1;
        }
        let nonce_part = slice_subrange(record, 32, 40);
        let nonce = u64_from_le_bytes(nonce_part);
        proof {
            assert(hash@ =~= output@.subrange(40 * i as int, 40 * i as int + 32));
            assert(record@.subrange(32, 40) =~= output@.subrange(
                40 * i as int + 32,
                40 * i as int + 40,
            ));
        }
        out.push(MiningResult { hash, nonce, challenge: challenges[i] });
        i = i + 1;
    }
    out
}

/// A response of `40 * n - 3` bytes — `n` records with the last one cut
/// short — parses to exactly `n - 1` full records: the truncated tail never
/// yields a record and never costs a complete one.
pub proof fn lemma_truncated_tail_dropped(n: int, len: int)
    requires
        n >= 1,
        len == 40 * n - 3,
    ensures
        len / 40 == n - 1,
{
    assert((40 * n - 3) / 40 == n - 1) by (nonlinear_arith)
        requires n >= 1;
}

} // verus!
