//! Assembling one mine transaction: the compute-budget figures and the
//! per-wallet instruction arguments. Encoding the instructions into ledger
//! bytes and signing are the program binding's and the caller's work; the
//! plan pins down every value they are handed.

use vstd::prelude::*;

use crate::search::MiningResult;
use crate::{CU_LIMIT_CLAIM, CU_LIMIT_MINE};

verus! {

/// Compute units added on top of the per-wallet mine budgets.
pub const MINE_CU_HEADROOM: u32 = 500;

/// Compute units added on top of the per-wallet claim budgets.
pub const CLAIM_CU_HEADROOM: u32 = 1_000;

/// The arguments of one mine instruction, one wallet each.
#[derive(Clone, Copy, Debug, PartialEq, Eq)]
pub struct MineInstructionPlan {
    /// The wallet the proof is for; it signs the transaction.
    pub signer: [u8; 32],
    /// The bus whose reward budget the claim draws on.
    pub bus_id: u64,
    /// The digest found for the wallet's challenge.
    pub hash: [u8; 32],
    /// The nonce that produced the digest.
    pub nonce: u64,
}

/// Everything one mine transaction carries: the compute budget, the priority
/// fee, one mine instruction per wallet, and who signs first.
pub struct MineTxPlan {
    /// Aggregate compute-unit limit, scaled by wallet count.
    pub cu_limit: u32,
    /// Micro-lamports per compute unit.
    pub cu_price: u64,
    /// One mine instruction per wallet, in wallet order.
    pub instructions: Vec<MineInstructionPlan>,
    /// Whether a dedicated fee payer signs before the wallets.
    pub separate_fee_payer: bool,
}

/// The compute-unit limit of a mine transaction for `wallet_count` wallets.
pub fn mine_cu_limit(wallet_count: usize) -> (l: u32)
    requires
        CU_LIMIT_MINE * wallet_count + MINE_CU_HEADROOM <= u32::MAX,
    ensures
        l == CU_LIMIT_MINE * wallet_count + MINE_CU_HEADROOM,
{
    CU_LIMIT_MINE * (wallet_count as u32) + MINE_CU_HEADROOM
}

/// The compute-unit limit of a claim transaction for `wallet_count` wallets.
pub fn claim_cu_limit(wallet_count: usize) -> (l: u32)
    requires
        CLAIM_CU_HEADROOM + CU_LIMIT_CLAIM * wallet_count <= u32::MAX,
    ensures
        l == CLAIM_CU_HEADROOM + CU_LIMIT_CLAIM * wallet_count,
{
    CLAIM_CU_HEADROOM + CU_LIMIT_CLAIM * (wallet_count as u32)
}

/// Lay out one mine transaction: the compute budget scaled to the wallet
/// count, the priority fee, and per wallet the bus, the found digest and its
/// nonce, in wallet order.
pub fn build_mine_plan(
    results: &Vec<MiningResult>,
    pubkeys: &Vec<[u8; 32]>,
    bus_id: u64,
    priority_fee: u64,
    separate_fee_payer: bool,
) -> (p: MineTxPlan)
    requires
        results@.len() == pubkeys@.len(),
        CU_LIMIT_MINE * pubkeys@.len() + MINE_CU_HEADROOM <= u32::MAX,
    ensures
        p.cu_limit == CU_LIMIT_MINE * pubkeys@.len() + MINE_CU_HEADROOM,
        p.cu_price == priority_fee,
        p.separate_fee_payer == separate_fee_payer,
        p.instructions@.len() == results@.len(),
        forall|i: int|
            0 <= i < results@.len() ==> p.instructions@[i] == (MineInstructionPlan {
                signer: pubkeys@[i],
                bus_id: bus_id,
                hash: results@[i].hash,
                nonce: results@[i].nonce,
            }),
{
    let cu_limit = mine_cu_limit(pubkeys.len());
    let mut instructions: Vec<MineInstructionPlan> = Vec::new();
    let mut w: usize = 0;
    while w < results.len()
        invariant
            w <= results@.len(),
            results@.len() == pubkeys@.len(),
            instructions@.len() == w,
            forall|i: int|
                0 <= i < w ==> instructions@[i] == (MineInstructionPlan {
                    signer: pubkeys@[i],
                    bus_id: bus_id,
                    hash: results@[i].hash,
                    nonce: results@[i].nonce,
                }),
        decreases results@.len() - w,
    {
        instructions.push(
            MineInstructionPlan {
                signer: pubkeys[w],
                bus_id,
                hash: results[w].hash,
                nonce: results[w].nonce,
            },
        );
        w = w + 1;
    }
    MineTxPlan { cu_limit, cu_price: priority_fee, instructions, separate_fee_payer }
}

} // verus!
