//! Roll derivation and fee-adjusted payout.
//!
//! Entropy mixing uses wrapping arithmetic on purpose: it is defined for
//! every digest bit pattern and must never fail. The financial computation
//! uses checked arithmetic on purpose: it must never silently overflow.
//! These two disciplines are deliberately different; do not unify them.

use crate::bet::Bet;
use crate::errors::DiceError;
use vstd::bytes::spec_u128_from_le_bytes;
use vstd::bytes::u128_from_le_bytes;
use vstd::prelude::*;
use vstd::slice::slice_subrange;

verus! {

/// House fee in basis points, deducted from every winning payout.
pub const HOUSE_FEE: u64 = 150;

/// One hundred percent, in basis points.
pub const FEE_DENOMINATOR: u64 = 10_000;

/// The SHA-256 digest of a byte string: 32 bytes, a pure function of the
/// input. Left without a definition here; the runtime's hash function
/// computes it.
pub uninterp spec fn sha256_of(data: Seq<u8>) -> Seq<u8>;

/// Relies on solana_program::hash::hash, which returns the SHA-256 digest of
/// its input: 32 bytes determined by the input bytes alone.
#[verifier::external_body]
pub(crate) fn sha256_digest(data: &[u8]) -> (r: [u8; 32])
    ensures
        r@ == sha256_of(data@),
{
    solana_program::hash::hash(data).to_bytes()
}

/// The roll a 32-byte digest yields: the digest is split into two 16-byte
/// little-endian integers whose wrapping sum, reduced mod 100 and shifted by
/// one, gives a value in [1, 100].
pub open spec fn roll_of_digest(d: Seq<u8>) -> u8 {
    let lower = spec_u128_from_le_bytes(d.subrange(0, 16));
    let upper = spec_u128_from_le_bytes(d.subrange(16, 32));
    (vstd::wrapping::u128_specs::wrapping_add(lower, upper) as int % 100 + 1) as u8
}

/// The roll a signature yields: the roll of its SHA-256 digest.
pub open spec fn roll_of_sig(sig: Seq<u8>) -> u8 {
    roll_of_digest(sha256_of(sig))
}

/// Derives the roll from a digest.
pub fn roll_from_digest(digest: &[u8; 32]) -> (r: u8)
    ensures
        r == roll_of_digest(digest@),
        1 <= r <= 100,
{
    let lower = u128_from_le_bytes(slice_subrange(digest.as_slice(), 0, 16));
    let upper = u128_from_le_bytes(slice_subrange(digest.as_slice(), 16, 32));
    let sum = lower.wrapping_add(upper);
    (sum % 100) as u8 + 1
}

/// Derives the roll from the raw signature bytes.
pub fn derive_roll(sig: &[u8]) -> (r: u8)
    ensures
        r == roll_of_sig(sig@),
        1 <= r <= 100,
{
    let digest = sha256_digest(sig);
    roll_from_digest(&digest)
}

/// Whether computing the winning payout for this stake would overflow.
pub open spec fn payout_overflows(amount: u64) -> bool {
    amount * (FEE_DENOMINATOR - HOUSE_FEE) > u64::MAX
}

/// The winning payout: the stake net of the house fee, truncated.
pub open spec fn payout_of(amount: u64) -> int {
    amount * (FEE_DENOMINATOR - HOUSE_FEE) / (FEE_DENOMINATOR as int)
}

/// Computes the winning payout, or reports the overflow that forbids it.
pub fn compute_payout(amount: u64) -> (r: Result<u64, DiceError>)
    ensures
        payout_overflows(amount) <==> r == Err::<u64, DiceError>(DiceError::Overflow),
        !payout_overflows(amount) ==> r == Ok::<u64, DiceError>(payout_of(amount) as u64),
{
    match amount.checked_mul(FEE_DENOMINATOR - HOUSE_FEE) {
        None => Err(DiceError::Overflow),
        Some(gross) => Ok(gross / FEE_DENOMINATOR),
    }
}

/// How a resolved bet ends: a win pays the fee-adjusted stake out of the
/// vault; a loss moves nothing and the stake stays with the house. Either
/// way the bet record is to be closed by the caller.
#[derive(Clone, Copy, Debug, PartialEq, Eq, Structural)]
pub enum Outcome {
    Win { payout: u64 },
    Loss,
}

/// The outcome owed for a bet and a derived roll: a win exactly when the
/// player's threshold is at least the derived roll (the boundary is
/// inclusive), with the fee-adjusted payout, unless that payout overflows;
/// a loss otherwise.
pub open spec fn settle_spec(bet: Bet, derived_roll: u8) -> Result<Outcome, DiceError> {
    if bet.roll >= derived_roll {
        if payout_overflows(bet.amount) {
            Err(DiceError::Overflow)
        } else {
            Ok(Outcome::Win { payout: payout_of(bet.amount) as u64 })
        }
    } else {
        Ok(Outcome::Loss)
    }
}

/// Decides the outcome of a bet against a derived roll.
pub fn settle(bet: &Bet, derived_roll: u8) -> (r: Result<Outcome, DiceError>)
    ensures
        r == settle_spec(*bet, derived_roll),
{
    if bet.roll >= derived_roll {
        match compute_payout(bet.amount) {
            Ok(payout) => Ok(Outcome::Win { payout }),
            Err(e) => Err(e),
        }
    } else {
        Ok(Outcome::Loss)
    }
}

} // verus!
