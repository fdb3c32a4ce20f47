//! The persistent record of a single wager and its canonical byte layout.

use vstd::bytes::spec_u64_to_le_bytes;
use vstd::bytes::u64_to_le_bytes;
use vstd::prelude::*;

verus! {

/// One active wager. All fields are fixed at creation; resolution only reads
/// them. `player` is the payout recipient's 32-byte key, `seed` the per-bet
/// nonce that distinguishes this bet's storage address, `roll` the player's
/// win threshold in [1, 100], `amount` the staked quantity already held in
/// escrow, and `bump` the address-derivation discriminant of the bet record.
#[derive(Clone, Copy, Debug)]
pub struct Bet {
    pub player: [u8; 32],
    pub seed: u64,
    pub roll: u8,
    pub amount: u64,
    pub bump: u8,
}

impl Bet {
    /// The canonical byte representation the oracle must sign:
    /// player (32) ++ seed LE (8) ++ roll (1) ++ amount LE (8) ++ bump (1),
    /// 50 bytes in all. Creation and resolution must agree on this layout
    /// byte for byte; any drift invalidates every outstanding signature.
    pub open spec fn canonical_bytes(self) -> Seq<u8> {
        self.player@ + spec_u64_to_le_bytes(self.seed) + seq![self.roll]
            + spec_u64_to_le_bytes(self.amount) + seq![self.bump]
    }

    /// Serializes the bet exactly in the canonical layout.
    pub fn to_slice(&self) -> (r: Vec<u8>)
        ensures
            r@ == self.canonical_bytes(),
    {
        let mut out: Vec<u8> = Vec::new();
        let mut i: usize = 0;
        while i < 32
            invariant
                i <= 32,
                out@ == self.player@.subrange(0, i as int),
            decreases 32 - i,
        {
            out.push(self.player[i]);
            i = i + 1;
            proof {
                assert(out@ =~= self.player@.subrange(0, i as int));
            }
        }
        proof {
            assert(out@ =~= self.player@);
        }
        let mut seed_bytes = u64_to_le_bytes(self.seed);
        out.append(&mut seed_bytes);
        out.push(self.roll);
        let mut amount_bytes = u64_to_le_bytes(self.amount);
        out.append(&mut amount_bytes);
        out.push(self.bump);
        proof {
            assert(out@ =~= self.canonical_bytes());
        }
        out
    }
}

} // verus!
