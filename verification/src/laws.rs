//! The protocol-level laws, each proved once and for all inputs.

use crate::bet::Bet;
use crate::errors::DiceError;
use crate::resolve::ResolveBet;
use crate::settle::payout_of;
use crate::settle::payout_overflows;
use crate::settle::roll_of_digest;
use crate::settle::roll_of_sig;
use crate::settle::settle_spec;
use crate::settle::Outcome;
use vstd::prelude::*;

verus! {

/// Law: the derived roll lies in [1, 100] for every digest, whatever its bit
/// pattern, all-zero and all-one digests included.
pub proof fn lemma_roll_in_range(d: Seq<u8>)
    ensures
        1 <= roll_of_digest(d) <= 100,
{
}

/// Law: the roll is a pure function of the signature bytes; the same
/// signature always yields the same roll.
pub proof fn lemma_roll_deterministic(sig1: Seq<u8>, sig2: Seq<u8>)
    requires
        sig1 == sig2,
    ensures
        roll_of_sig(sig1) == roll_of_sig(sig2),
{
}

/// Law: a verification that succeeded binds the signer, the signature bytes
/// and the message. Against the same companion record, altering any one of
/// the three — another player key, other signature bytes, or a bet whose
/// canonical bytes differ — makes verification fail.
pub proof fn lemma_verification_rejects_tampering(
    a: ResolveBet,
    sig_a: Seq<u8>,
    b: ResolveBet,
    sig_b: Seq<u8>,
)
    requires
        a.verify_spec(sig_a) == Ok::<(), DiceError>(()),
        b.instructions@ == a.instructions@,
        b.bet.player@ != a.bet.player@ || sig_b != sig_a || b.bet.canonical_bytes()
            != a.bet.canonical_bytes(),
    ensures
        b.verify_spec(sig_b) is Err,
{
}

/// Law: cross-bet replay is rejected. A signature that verifies for one bet
/// is rejected against any bet with a different canonical representation,
/// even under the very same companion record.
pub proof fn lemma_cross_bet_replay_rejected(a: ResolveBet, sig: Seq<u8>, b: ResolveBet)
    requires
        a.verify_spec(sig) == Ok::<(), DiceError>(()),
        b.instructions@ == a.instructions@,
        b.bet.canonical_bytes() != a.bet.canonical_bytes(),
    ensures
        b.verify_spec(sig) is Err,
{
}

/// Law: the win boundary is inclusive. A bet loses exactly when the derived
/// roll exceeds the player's threshold; when the threshold is at least the
/// derived roll and the payout fits, the bet wins the fee-adjusted payout.
pub proof fn lemma_win_boundary(bet: Bet, derived_roll: u8)
    ensures
        settle_spec(bet, derived_roll) == Ok::<Outcome, DiceError>(Outcome::Loss) <==> bet.roll
            < derived_roll,
        bet.roll >= derived_roll && !payout_overflows(bet.amount) ==> settle_spec(bet, derived_roll)
            == Ok::<Outcome, DiceError>(Outcome::Win { payout: payout_of(bet.amount) as u64 }),
        bet.roll >= derived_roll && payout_overflows(bet.amount) ==> settle_spec(bet, derived_roll)
            == Err::<Outcome, DiceError>(DiceError::Overflow),
{
}

} // verus!
