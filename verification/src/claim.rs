//! Deciding how much to claim. Amounts are in base token units; the caller
//! converts any human-readable figure before asking. One request covers every
//! wallet: a wallet that cannot meet the requested amount clears what the
//! earlier wallets accumulated, so a short wallet never forces a partial
//! claim of the amount asked for.

use vstd::prelude::*;

use crate::stats::sat_add_u64;

verus! {

/// What one wallet contributes: the requested amount when the wallet can
/// cover it, everything claimable when no amount was requested, nothing
/// otherwise.
pub open spec fn spec_claim_amount(requested: Option<u64>, claimable: u64) -> u64 {
    match requested {
        Some(a) => if a <= claimable {
            a
        } else {
            0
        },
        None => claimable,
    }
}

/// What one wallet contributes to a claim transaction.
pub fn claim_amount(requested: Option<u64>, claimable: u64) -> (a: u64)
    ensures
        a == spec_claim_amount(requested, claimable),
{
    match requested {
        Some(r) => if r <= claimable {
            r
        } else {
            0
        },
        None => claimable,
    }
}

/// The total a claim over these wallets carries, folded left to right: each
/// wallet with anything claimable adds its contribution, and one that cannot
/// meet the request clears the total gathered so far.
pub open spec fn spec_claim_total(requested: Option<u64>, claimables: Seq<u64>) -> u64
    decreases claimables.len(),
{
    if claimables.len() == 0 {
        0
    } else {
        let prefix = spec_claim_total(requested, claimables.drop_last());
        let c = claimables.last();
        if c == 0 {
            prefix
        } else {
            let a = spec_claim_amount(requested, c);
            if a == 0 {
                0
            } else {
                sat_add_u64(prefix, a)
            }
        }
    }
}

/// A decided claim: what each wallet contributes, the total carried, and
/// whether any wallet had anything claimable at all.
pub struct ClaimPlan {
    /// Per-wallet contribution, in wallet order.
    pub amounts: Vec<u64>,
    /// The total the transaction claims.
    pub total: u64,
    /// Whether any wallet had a non-zero claimable balance.
    pub has_rewards: bool,
}

/// Decide a claim over every wallet's claimable balance. The claim is worth
/// submitting exactly when `has_rewards` holds and `total` is non-zero.
pub fn claim_plan(requested: Option<u64>, claimables: &Vec<u64>) -> (p: ClaimPlan)
    ensures
        p.amounts@.len() == claimables@.len(),
        forall|i: int|
            0 <= i < claimables@.len() ==> p.amounts@[i] == spec_claim_amount(
                requested,
                claimables@[i],
            ),
        p.total == spec_claim_total(requested, claimables@),
        p.has_rewards == exists|i: int| 0 <= i < claimables@.len() && claimables@[i] > 0,
{
    let mut amounts: Vec<u64> = Vec::new();
    let mut total: u64 = 0;
    let mut has_rewards: bool = false;
    let mut w: usize = 0;
    while w < claimables.len()
        invariant
            w <= claimables@.len(),
            amounts@.len() == w,
            forall|i: int|
                0 <= i < w ==> amounts@[i] == spec_claim_amount(requested, claimables@[i]),
            total == spec_claim_total(requested, claimables@.take(w as int)),
            has_rewards == exists|i: int| 0 <= i < w && claimables@[i] > 0,
        decreases claimables@.len() - w,
    {
        let c = claimables[w];
        let a = claim_amount(requested, c);
        amounts.push(a);
        if c > 0 {
            has_rewards = true;
            if a == 0 {
                total = 0;
            } else {
                total = total.saturating_add(a);
            }
        }
        proof {
            assert(claimables@.take(w + 1).drop_last() =~= claimables@.take(w as int));
            assert(claimables@.take(w + 1).last() == claimables@[w as int]);
        }
        w = w + 1;
    }
    proof {
        assert(claimables@.take(claimables@.len() as int) =~= claimables@);
    }
    ClaimPlan { amounts, total, has_rewards }
}

} // verus!
