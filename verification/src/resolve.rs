//! Binding the companion verification record to the bet, and resolving it.

use crate::bet::Bet;
use crate::bytes::bytes_eq;
use crate::errors::DiceError;
use crate::settle::derive_roll;
use crate::settle::roll_of_sig;
use crate::settle::settle;
use crate::settle::settle_spec;
use crate::settle::Outcome;
use crate::sig_record::parse_entries;
use crate::sig_record::unpack;
use vstd::prelude::*;

verus! {

/// The 32 bytes of the runtime's Ed25519 signature-verification program
/// address, base58 "Ed25519SigVerify111111111111111111111111111" decoded.
pub open spec fn ed25519_verifier_id() -> Seq<u8> {
    seq![
        3u8, 125u8, 70u8, 214u8, 124u8, 147u8, 251u8, 190u8, 18u8, 249u8, 66u8, 143u8, 131u8,
        141u8, 64u8, 255u8, 5u8, 112u8, 116u8, 73u8, 39u8, 244u8, 138u8, 100u8, 252u8, 202u8,
        112u8, 68u8, 128u8, 0u8, 0u8, 0u8,
    ]
}

/// Relies on solana_program::ed25519_program::ID, the address the runtime
/// declares for its Ed25519 verification program
/// ("Ed25519SigVerify111111111111111111111111111"); the bytes returned are
/// exactly that address's base58 decoding, as `ed25519_verifier_id` spells
/// it out.
#[verifier::external_body]
pub(crate) fn ed25519_program_id() -> (r: [u8; 32])
    ensures
        r@ == ed25519_verifier_id(),
{
    solana_program::ed25519_program::ID.to_bytes()
}

/// The designated verifier's address as plain bytes, for building and
/// checking records outside this crate.
pub fn verifier_id_bytes() -> (r: Vec<u8>)
    ensures
        r@ == ed25519_verifier_id(),
{
    let id = ed25519_program_id();
    let mut out: Vec<u8> = Vec::new();
    let mut i: usize = 0;
    while i < 32
        invariant
            i <= 32,
            out@ == id@.subrange(0, i as int),
            id@ == ed25519_verifier_id(),
        decreases 32 - i,
    {
        out.push(id[i]);
        i = i + 1;
        proof {
            assert(out@ =~= id@.subrange(0, i as int));
        }
    }
    proof {
        assert(out@ =~= id@);
    }
    out
}

/// One already-committed instruction of the surrounding transaction, reduced
/// to what resolution reads: the program that produced it, how many accounts
/// it declares, and its raw payload.
pub struct InstructionRecord {
    pub program_id: [u8; 32],
    pub account_count: usize,
    pub data: Vec<u8>,
}

/// Everything resolution reads: the bet under settlement and the
/// transaction's instruction list, whose first element must be the companion
/// verification record.
pub struct ResolveBet {
    pub bet: Bet,
    pub instructions: Vec<InstructionRecord>,
}

impl ResolveBet {
    /// The exact outcome of the verification pass: success only when the
    /// instruction at position 0 exists, comes from the designated verifier,
    /// declares no accounts, parses into exactly one verifiable entry, and
    /// that entry attests precisely (bet's player, supplied signature, bet's
    /// canonical bytes); otherwise the error naming the first failed check.
    pub open spec fn verify_spec(self, sig: Seq<u8>) -> Result<(), DiceError> {
        if self.instructions@.len() == 0 {
            Err(DiceError::WrongVerifier)
        } else {
            let record = self.instructions@[0];
            if record.program_id@ != ed25519_verifier_id() {
                Err(DiceError::WrongVerifier)
            } else if record.account_count != 0 {
                Err(DiceError::UnexpectedAccounts)
            } else {
                match parse_entries(record.data@) {
                    Option::None => Err(DiceError::WrongSignatureCount),
                    Option::Some(entries) => {
                        if entries.len() != 1 {
                            Err(DiceError::WrongSignatureCount)
                        } else {
                            let e = entries[0];
                            if !e.is_verifiable {
                                Err(DiceError::MissingVerifiabilityFlag)
                            } else if e.public_key != Option::Some(self.bet.player@) {
                                Err(DiceError::SignerMismatch)
                            } else if e.signature != Option::Some(sig) {
                                Err(DiceError::SignatureMismatch)
                            } else if e.message != Option::Some(self.bet.canonical_bytes()) {
                                Err(DiceError::MessageMismatch)
                            } else {
                                Ok(())
                            }
                        }
                    },
                }
            }
        }
    }

    /// Checks that the companion record attests exactly the expected signer,
    /// signature bytes and message for this bet.
    pub fn verify_ed25519_signature(&self, sig: &[u8]) -> (r: Result<(), DiceError>)
        ensures
            r == self.verify_spec(sig@),
    {
        if self.instructions.len() == 0 {
            return Err(DiceError::WrongVerifier);
        }
        let record = &self.instructions[0];
        let expected_id = ed25519_program_id();
        if !bytes_eq(record.program_id.as_slice(), expected_id.as_slice()) {
            return Err(DiceError::WrongVerifier);
        }
        if record.account_count != 0 {
            return Err(DiceError::UnexpectedAccounts);
        }
        let entries = match unpack(record.data.as_slice()) {
            None => {
                return Err(DiceError::WrongSignatureCount);
            },
            Some(entries) => entries,
        };
        if entries.len() != 1 {
            return Err(DiceError::WrongSignatureCount);
        }
        let entry = &entries[0];
        if !entry.is_verifiable {
            return Err(DiceError::MissingVerifiabilityFlag);
        }
        match &entry.public_key {
            None => {
                return Err(DiceError::SignerMismatch);
            },
            Some(pk) => {
                if !bytes_eq(pk.as_slice(), self.bet.player.as_slice()) {
                    return Err(DiceError::SignerMismatch);
                }
            },
        }
        match &entry.signature {
            None => {
                return Err(DiceError::SignatureMismatch);
            },
            Some(s) => {
                if !bytes_eq(s.as_slice(), sig) {
                    return Err(DiceError::SignatureMismatch);
                }
            },
        }
        match &entry.message {
            None => {
                return Err(DiceError::MessageMismatch);
            },
            Some(m) => {
                let canonical = self.bet.to_slice();
                if !bytes_eq(m.as_slice(), canonical.as_slice()) {
                    return Err(DiceError::MessageMismatch);
                }
            },
        }
        Ok(())
    }

    /// Resolves the bet against the signature's entropy: derives the roll
    /// from the signature's digest and decides the outcome. The caller moves
    /// the funds of a win and closes the bet record either way; on an
    /// overflow error nothing may move at all.
    pub fn resolve_bet(&self, sig: &[u8]) -> (r: Result<Outcome, DiceError>)
        ensures
            r == settle_spec(self.bet, roll_of_sig(sig@)),
    {
        let roll = derive_roll(sig);
        settle(&self.bet, roll)
    }
}

} // verus!
