//! The result validator: before submission every mining result is re-checked
//! against the wallet's freshly observed challenge. A result computed against
//! a challenge the ledger has moved past is stale and must be re-mined; a
//! result whose digest does not re-derive or misses the target is invalid and
//! the batch must never be submitted.

use vstd::prelude::*;

use crate::hash::{bytes32_eq, hash_meets_target, mine_digest, mine_hash, valid_mine_result};
use crate::search::MiningResult;

verus! {

/// What the re-check of one result against the current ledger state found.
#[derive(Clone, Copy, Debug, PartialEq, Eq)]
pub enum RevalidateVerdict {
    /// The result is against the current challenge and its digest re-derives
    /// and meets the target: submittable.
    Fresh,
    /// The ledger's challenge has moved past the one the result was computed
    /// against: re-mine this wallet against the current challenge.
    Stale,
    /// The challenge is current but the digest does not re-derive or misses
    /// the target: a hard failure, the batch is aborted.
    Invalid,
}

/// Whether a result was computed against a challenge other than the one the
/// ledger currently shows for the wallet.
pub fn is_stale(result: &MiningResult, current_challenge: &[u8; 32]) -> (r: bool)
    ensures
        r == (result.challenge@ != current_challenge@),
{
    !bytes32_eq(&result.challenge, current_challenge)
}

/// Re-check one result against the wallet's freshly observed challenge and
/// the difficulty: fresh exactly when it is against the current challenge and
/// cryptographically sound, stale exactly when the challenge moved.
pub fn revalidate_result(
    result: &MiningResult,
    current_challenge: &[u8; 32],
    pubkey: &[u8; 32],
    difficulty: &[u8; 32],
) -> (v: RevalidateVerdict)
    ensures
        v is Stale <==> result.challenge@ != current_challenge@,
        v is Fresh <==> result.challenge@ == current_challenge@ && valid_mine_result(
            result.hash@,
            current_challenge@,
            pubkey@,
            result.nonce,
            difficulty@,
        ),
        v is Invalid <==> result.challenge@ == current_challenge@ && !valid_mine_result(
            result.hash@,
            current_challenge@,
            pubkey@,
            result.nonce,
            difficulty@,
        ),
{
    if !bytes32_eq(&result.challenge, current_challenge) {
        return RevalidateVerdict::Stale;
    }
    let computed = mine_hash(current_challenge, pubkey, result.nonce);
    if !bytes32_eq(&result.hash, &computed) {
        return RevalidateVerdict::Invalid;
    }
    if hash_meets_target(&result.hash, difficulty) {
        RevalidateVerdict::Fresh
    } else {
        RevalidateVerdict::Invalid
    }
}

/// Every result the search hands out re-validates as fresh against the
/// challenge it was mined for: what the engine returns, the validator
/// accepts, under any difficulty the result meets.
pub proof fn lemma_search_results_validate(
    result: MiningResult,
    pubkey: Seq<u8>,
    difficulty: Seq<u8>,
)
    requires
        result.hash@ == mine_digest(result.challenge@, pubkey, result.nonce),
        crate::hash::bytes_le(result.hash@, difficulty),
    ensures
        valid_mine_result(result.hash@, result.challenge@, pubkey, result.nonce, difficulty),
{
}

} // verus!
