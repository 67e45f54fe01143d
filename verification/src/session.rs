//! The mining session: the agent's configuration and wallet set. Key pairs,
//! signing and the ledger connection live with the caller; the session holds
//! each wallet's public key as its 32 bytes and decides who pays fees.

use vstd::prelude::*;

use crate::hash::{bytes32_eq, hash_meets_target, mine_hash, valid_mine_result};

verus! {

/// An agent: its fee policy, its search configuration, and its ordered,
/// non-empty set of wallet public keys. Immutable once built.
pub struct Miner {
    /// Micro-lamports of priority fee per transaction.
    pub priority_fee: u64,
    /// Whether the accelerator strategy replaces the thread-partitioned one.
    pub use_gpu: bool,
    /// The wallets mined for, in order; the first is the default fee payer.
    pub wallets: Vec<[u8; 32]>,
    /// A dedicated fee payer, overriding the first wallet when present.
    pub keypair_fee: Option<[u8; 32]>,
    /// Worker count for the thread-partitioned search.
    pub threads: u64,
}

impl Miner {
    /// A session is usable when it mines for at least one wallet and cuts the
    /// nonce space into at least one range.
    pub open spec fn wf(&self) -> bool {
        &&& self.wallets@.len() >= 1
        &&& self.threads >= 1
    }

    /// Assemble a session.
    pub fn new(
        priority_fee: u64,
        use_gpu: bool,
        wallets: Vec<[u8; 32]>,
        keypair_fee: Option<[u8; 32]>,
        threads: u64,
    ) -> (m: Miner)
        requires
            wallets@.len() >= 1,
            threads >= 1,
        ensures
            m.wf(),
            m.priority_fee == priority_fee,
            m.use_gpu == use_gpu,
            m.wallets@ == wallets@,
            m.keypair_fee == keypair_fee,
            m.threads == threads,
    {
        Miner { priority_fee, use_gpu, wallets, keypair_fee, threads }
    }

    /// The key that pays transaction fees: the dedicated fee payer when one
    /// was given, the first wallet otherwise.
    pub fn payer(&self) -> (p: [u8; 32])
        requires
            self.wf(),
        ensures
            p == (match self.keypair_fee {
                Some(fee) => fee,
                None => self.wallets@[0],
            }),
    {
        match &self.keypair_fee {
            Some(fee) => *fee,
            None => self.wallets[0],
        }
    }

    /// Whether transactions carry a fee payer beside the wallets themselves,
    /// which then signs first.
    pub fn has_separate_payer(&self) -> (r: bool)
        requires
            self.wf(),
        ensures
            r == (self.keypair_fee is Some),
    {
        self.keypair_fee.is_some()
    }

    /// Re-derive the digest from `(current_hash, signer, nonce)` and accept
    /// `hash` exactly when it equals that digest and is within `difficulty`:
    /// either mismatch makes the result unsubmittable.
    pub fn validate_hash(
        &self,
        hash: [u8; 32],
        current_hash: [u8; 32],
        signer: [u8; 32],
        nonce: u64,
        difficulty: [u8; 32],
    ) -> (r: bool)
        ensures
            r == valid_mine_result(hash@, current_hash@, signer@, nonce, difficulty@),
    {
        let computed = mine_hash(&current_hash, &signer, nonce);
        if !bytes32_eq(&hash, &computed) {
            return false;
        }
        hash_meets_target(&hash, &difficulty)
    }

    /// Step a self-test difficulty one notch: the first non-zero byte moves
    /// down by eight to tighten the target (a lower target is harder) or up
    /// by eight to loosen it, clipped at the byte's range; an all-zero target
    /// is left alone.
    pub fn get_next_difficulty(&self, start_array: [u8; 32], direction: i8) -> (d: [u8; 32])
        ensures
            zeros_before(start_array@, 32) ==> d@ == start_array@,
            forall|k: int|
                0 <= k < 32 && start_array@[k] != 0 && #[trigger] zeros_before(start_array@, k)
                    ==> d@ == start_array@.update(k, difficulty_step(start_array@[k], direction)),
    {
        let mut diff_array = start_array;
        let mut x: usize = 0;
        while x < 32
            invariant
                x <= 32,
                diff_array@ == start_array@,
                zeros_before(start_array@, x as int),
            decreases 32 - x,
        {
            if diff_array[x] != 0 {
                let stepped = if direction > 0 {
                    diff_array[x].saturating_sub(8)
                } else {
                    diff_array[x].saturating_add(8)
                };
                diff_array[x] = stepped;
                proof {
                    assert(diff_array@ =~= start_array@.update(
                        x as int,
                        difficulty_step(start_array@[x as int], direction),
                    ));
                }
                return diff_array;
            }
            x = x + 1;
        }
        diff_array
    }
}

/// The balance a wallet needs before its registration transaction can pay
/// its own inner instruction.
pub const REGISTRATION_MIN_LAMPORTS: u64 = 3_000_000;

/// How much the fee payer must transfer to a wallet before registering it:
/// exactly what the wallet's balance falls short of the minimum, nothing when
/// it already suffices.
pub fn registration_topup(current_balance: u64) -> (t: Option<u64>)
    ensures
        current_balance < REGISTRATION_MIN_LAMPORTS ==> t == Some(
            (REGISTRATION_MIN_LAMPORTS - current_balance) as u64,
        ),
        current_balance >= REGISTRATION_MIN_LAMPORTS ==> t is None,
{
    if current_balance < REGISTRATION_MIN_LAMPORTS {
        Some(REGISTRATION_MIN_LAMPORTS - current_balance)
    } else {
        None
    }
}

/// Every byte before position `k` is zero.
pub open spec fn zeros_before(s: Seq<u8>, k: int) -> bool {
    forall|j: int| 0 <= j < k ==> s[j] == 0
}

/// How one difficulty byte moves: down by eight toward a harder target when
/// the direction is positive, up by eight toward an easier one otherwise,
/// clipped at the byte's range.
pub open spec fn difficulty_step(b: u8, direction: i8) -> u8 {
    if direction > 0 {
        if b >= 8 {
            (b - 8) as u8
        } else {
            0
        }
    } else {
        if b + 8 <= 255 {
            (b + 8) as u8
        } else {
            255
        }
    }
}

} // verus!
