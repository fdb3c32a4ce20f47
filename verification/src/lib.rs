//! Settlement core for a signature-driven dice wager.
//!
//! A player commits to a bet (threshold roll, staked amount, per-bet seed)
//! whose stake sits in an escrow vault. A trusted oracle later signs the
//! bet's canonical byte representation with Ed25519; the transaction that
//! settles the bet carries a companion signature-verification instruction at
//! position 0. This crate verifies that the companion record attests exactly
//! the expected (signer, signature, message) triple, derives a deterministic
//! roll in [1, 100] from the signature bytes, and computes the fee-adjusted
//! payout under checked arithmetic. Moving the funds and closing the bet
//! record are the caller's duty; this crate decides what must happen.

pub mod bet;
pub mod bytes;
pub mod errors;
pub mod laws;
pub mod resolve;
pub mod settle;
pub mod sig_record;
