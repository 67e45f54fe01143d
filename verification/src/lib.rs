//! Core logic of a proof-of-work mining agent: the nonce search against a
//! difficulty target, validation of found results, the accelerator pipe
//! protocol, bus and epoch coordination, and the submission state machine.
//!
//! Everything that reads the ledger, signs or sends stays outside this crate;
//! the functions here take the observed values as plain arguments and state
//! in their contracts exactly what they decide or compute.

pub mod claim;
pub mod hash;
pub mod search;
pub mod bus;
pub mod codec;
pub mod epoch;
pub mod plan;
mod rng;
pub mod session;
pub mod stats;
pub mod submit;
pub mod validate;

use vstd::prelude::*;

verus! {

/// Compute-unit budget of one claim instruction.
pub const CU_LIMIT_CLAIM: u32 = 17_000;

/// Compute-unit budget of one epoch-reset instruction.
pub const CU_LIMIT_RESET: u32 = 20_000;

/// Compute-unit budget of one mine instruction.
pub const CU_LIMIT_MINE: u32 = 3_000;

/// One agent in `RESET_ODDS` elects itself to submit the epoch reset.
pub const RESET_ODDS: u64 = 20;

/// Number of shared reward bus accounts.
pub const BUS_COUNT: u64 = 8;

/// Seconds between epoch resets; the challenge/difficulty pair read at one
/// reset is valid until `last_reset_at + EPOCH_DURATION`.
pub const EPOCH_DURATION: i64 = 60;

/// Seconds before the epoch deadline at which submission is abandoned: a
/// transaction sent later would land against an expired challenge.
pub const SUBMIT_SAFETY_MARGIN: u64 = 5;

/// How many times the ledger gateway itself retries a submitted transaction.
pub const RPC_RETRIES: usize = 0;

/// How many send attempts the submission pipeline makes before giving up.
pub const GATEWAY_RETRIES: u64 = 150;

/// How many status polls follow one send before the next attempt.
pub const CONFIRM_RETRIES: u64 = 1;

/// Milliseconds between two status polls.
pub const CONFIRM_DELAY: u64 = 0;

/// Milliseconds between two send attempts when no adaptive delay is known.
pub const GATEWAY_DELAY: u64 = 300;

} // verus!
