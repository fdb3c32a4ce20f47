//! Failure kinds surfaced by bet resolution.

use vstd::prelude::*;

verus! {

/// Every way a resolution can fail, each check with its own kind so a caller
/// can tell exactly which binding was violated.
#[derive(Clone, Copy, Debug, PartialEq, Eq, Structural)]
pub enum DiceError {
    /// The instruction at the fixed transaction position is absent or was not
    /// produced by the designated signature-verification program.
    WrongVerifier,
    /// The verification instruction declares auxiliary accounts; the genuine
    /// one declares none.
    UnexpectedAccounts,
    /// The verification instruction's payload does not parse into exactly one
    /// signature entry.
    WrongSignatureCount,
    /// The single entry is not marked verifiable: some of its data lives
    /// outside the instruction itself, so it cannot be introspected.
    MissingVerifiabilityFlag,
    /// The entry's signer public key is absent or differs from the bet's
    /// recorded player.
    SignerMismatch,
    /// The entry's signature bytes are absent or differ from the signature
    /// argument supplied to resolution.
    SignatureMismatch,
    /// The entry's signed message is absent or differs from the bet's
    /// canonical byte representation.
    MessageMismatch,
    /// The payout multiplication would overflow; the whole resolution must
    /// abort.
    Overflow,
}

} // verus!
