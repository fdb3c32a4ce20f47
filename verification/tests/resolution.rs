use dice_settlement::bet::Bet;
use dice_settlement::errors::DiceError;
use dice_settlement::resolve::verifier_id_bytes;
use dice_settlement::resolve::InstructionRecord;
use dice_settlement::resolve::ResolveBet;
use dice_settlement::settle::compute_payout;
use dice_settlement::settle::derive_roll;
use dice_settlement::settle::roll_from_digest;
use dice_settlement::settle::settle;
use dice_settlement::settle::Outcome;
use dice_settlement::sig_record::unpack;

fn sample_bet() -> Bet {
    Bet { player: [7u8; 32], seed: 7, roll: 60, amount: 1000, bump: 254 }
}

fn verifier_id_array() -> [u8; 32] {
    let v = verifier_id_bytes();
    let mut id = [0u8; 32];
    id.copy_from_slice(&v);
    id
}

/// Lays out a genuine single-entry verification payload: count, padding, one
/// offsets table with every instruction index naming this instruction, then
/// the key, signature and message bytes themselves.
fn build_payload(pk: &[u8; 32], sig: &[u8; 64], msg: &[u8]) -> Vec<u8> {
    let pk_off: u16 = 16;
    let sig_off: u16 = pk_off + 32;
    let msg_off: u16 = sig_off + 64;
    let msg_size: u16 = msg.len() as u16;
    let here: u16 = 0xFFFF;
    let mut d = vec![1u8, 0u8];
    d.extend_from_slice(&sig_off.to_le_bytes());
    d.extend_from_slice(&here.to_le_bytes());
    d.extend_from_slice(&pk_off.to_le_bytes());
    d.extend_from_slice(&here.to_le_bytes());
    d.extend_from_slice(&msg_off.to_le_bytes());
    d.extend_from_slice(&msg_size.to_le_bytes());
    d.extend_from_slice(&here.to_le_bytes());
    d.extend_from_slice(pk);
    d.extend_from_slice(sig);
    d.extend_from_slice(msg);
    d
}

fn valid_context(bet: &Bet, sig: &[u8; 64]) -> ResolveBet {
    let data = build_payload(&bet.player, sig, &bet.to_slice());
    ResolveBet {
        bet: *bet,
        instructions: vec![InstructionRecord {
            program_id: verifier_id_array(),
            account_count: 0,
            data,
        }],
    }
}

#[test]
fn canonical_bytes_layout() {
    let bet = sample_bet();
    let mut expected = Vec::new();
    expected.extend_from_slice(&bet.player);
    expected.extend_from_slice(&bet.seed.to_le_bytes());
    expected.push(bet.roll);
    expected.extend_from_slice(&bet.amount.to_le_bytes());
    expected.push(bet.bump);
    assert_eq!(bet.to_slice(), expected);
    assert_eq!(expected.len(), 50);
}

#[test]
fn verifier_id_matches_runtime_program() {
    let expected = solana_program::ed25519_program::ID.to_bytes().to_vec();
    assert_eq!(verifier_id_bytes(), expected);
}

#[test]
fn roll_covers_extreme_digests() {
    let zero = [0u8; 32];
    let r0 = roll_from_digest(&zero);
    assert!((1..=100).contains(&r0));
    assert_eq!(r0, 1);
    let ones = [0xFFu8; 32];
    let r1 = roll_from_digest(&ones);
    assert!((1..=100).contains(&r1));
    // (2^128 - 1) + (2^128 - 1) wraps to 2^128 - 2, which ends in ...54.
    assert_eq!(r1, 55);
}

#[test]
fn roll_is_deterministic() {
    let sig = [0xABu8; 64];
    let a = derive_roll(&sig);
    let b = derive_roll(&sig.to_vec());
    assert_eq!(a, b);
    assert!((1..=100).contains(&a));
}

#[test]
fn roll_matches_sha256_of_signature() {
    let sig = [0x5Cu8; 64];
    let digest = solana_program::hash::hash(&sig).to_bytes();
    let lower = u128::from_le_bytes(digest[..16].try_into().unwrap());
    let upper = u128::from_le_bytes(digest[16..].try_into().unwrap());
    let expected = (lower.wrapping_add(upper) % 100) as u8 + 1;
    assert_eq!(derive_roll(&sig), expected);
    assert_eq!(roll_from_digest(&digest), expected);
}

#[test]
fn payout_formula_exact_values() {
    assert_eq!(compute_payout(10_000), Ok(9850));
    assert_eq!(compute_payout(3), Ok(2));
    assert_eq!(compute_payout(0), Ok(0));
}

#[test]
fn payout_overflow_detected() {
    assert_eq!(compute_payout(u64::MAX), Err(DiceError::Overflow));
}

#[test]
fn win_boundary_is_inclusive() {
    let mut bet = sample_bet();
    bet.roll = 50;
    bet.amount = 10_000;
    assert_eq!(settle(&bet, 50), Ok(Outcome::Win { payout: 9850 }));
    assert_eq!(settle(&bet, 51), Ok(Outcome::Loss));
}

#[test]
fn overflowing_win_aborts_resolution() {
    let mut bet = sample_bet();
    bet.roll = 100; // wins against every derived roll
    bet.amount = u64::MAX;
    let sig = [0x11u8; 64];
    let ctx = valid_context(&bet, &sig);
    assert_eq!(ctx.resolve_bet(&sig), Err(DiceError::Overflow));
}

#[test]
fn unpack_parses_single_entry() {
    let bet = sample_bet();
    let sig = [0x42u8; 64];
    let msg = bet.to_slice();
    let data = build_payload(&bet.player, &sig, &msg);
    let entries = unpack(&data).expect("payload must parse");
    assert_eq!(entries.len(), 1);
    let e = &entries[0];
    assert!(e.is_verifiable);
    assert_eq!(e.public_key.as_deref(), Some(&bet.player[..]));
    assert_eq!(e.signature.as_deref(), Some(&sig[..]));
    assert_eq!(e.message.as_deref(), Some(&msg[..]));
}

#[test]
fn unpack_rejects_truncated_payloads() {
    assert!(unpack(&[]).is_none());
    assert!(unpack(&[1u8]).is_none());
    // declares one entry but carries no offsets table
    assert!(unpack(&[1u8, 0u8, 5u8]).is_none());
    // declares zero entries: parses to nothing
    let empty = unpack(&[0u8, 0u8]).expect("zero entries parse");
    assert_eq!(empty.len(), 0);
}

#[test]
fn verification_accepts_the_genuine_record() {
    let bet = sample_bet();
    let sig = [0x42u8; 64];
    let ctx = valid_context(&bet, &sig);
    assert_eq!(ctx.verify_ed25519_signature(&sig), Ok(()));
}

#[test]
fn verification_fails_without_record() {
    let bet = sample_bet();
    let ctx = ResolveBet { bet, instructions: vec![] };
    assert_eq!(ctx.verify_ed25519_signature(&[0u8; 64]), Err(DiceError::WrongVerifier));
}

#[test]
fn verification_fails_for_wrong_program() {
    let bet = sample_bet();
    let sig = [0x42u8; 64];
    let mut ctx = valid_context(&bet, &sig);
    ctx.instructions[0].program_id = [9u8; 32];
    assert_eq!(ctx.verify_ed25519_signature(&sig), Err(DiceError::WrongVerifier));
}

#[test]
fn verification_fails_for_auxiliary_accounts() {
    let bet = sample_bet();
    let sig = [0x42u8; 64];
    let mut ctx = valid_context(&bet, &sig);
    ctx.instructions[0].account_count = 1;
    assert_eq!(ctx.verify_ed25519_signature(&sig), Err(DiceError::UnexpectedAccounts));
}

#[test]
fn verification_fails_for_wrong_entry_count() {
    let bet = sample_bet();
    let sig = [0x42u8; 64];
    let mut ctx = valid_context(&bet, &sig);
    // two entries: double the tables, data otherwise well-formed
    let mut data = vec![2u8, 0u8];
    data.extend_from_slice(&[0u8; 28]);
    ctx.instructions[0].data = data;
    assert_eq!(ctx.verify_ed25519_signature(&sig), Err(DiceError::WrongSignatureCount));
    // malformed payload: too short for its declared count
    ctx.instructions[0].data = vec![1u8, 0u8];
    assert_eq!(ctx.verify_ed25519_signature(&sig), Err(DiceError::WrongSignatureCount));
}

#[test]
fn verification_fails_without_verifiability_flag() {
    let bet = sample_bet();
    let sig = [0x42u8; 64];
    let mut ctx = valid_context(&bet, &sig);
    // point the message at another instruction: the entry is no longer
    // self-contained
    ctx.instructions[0].data[14] = 0;
    ctx.instructions[0].data[15] = 0;
    assert_eq!(ctx.verify_ed25519_signature(&sig), Err(DiceError::MissingVerifiabilityFlag));
}

#[test]
fn verification_fails_for_absent_signer() {
    let bet = sample_bet();
    let sig = [0x42u8; 64];
    let mut ctx = valid_context(&bet, &sig);
    // key offset far beyond the payload: the key cannot be read back
    let far: u16 = 60_000;
    ctx.instructions[0].data[6..8].copy_from_slice(&far.to_le_bytes());
    assert_eq!(ctx.verify_ed25519_signature(&sig), Err(DiceError::SignerMismatch));
}

#[test]
fn verification_fails_for_tampered_signer() {
    let bet = sample_bet();
    let sig = [0x42u8; 64];
    let mut ctx = valid_context(&bet, &sig);
    // flip one byte of the attested key
    ctx.instructions[0].data[16] ^= 1;
    assert_eq!(ctx.verify_ed25519_signature(&sig), Err(DiceError::SignerMismatch));
}

#[test]
fn verification_fails_for_tampered_signature() {
    let bet = sample_bet();
    let sig = [0x42u8; 64];
    let ctx = valid_context(&bet, &sig);
    let mut other = sig;
    other[63] ^= 1;
    assert_eq!(ctx.verify_ed25519_signature(&other), Err(DiceError::SignatureMismatch));
}

#[test]
fn verification_fails_for_tampered_message() {
    let bet = sample_bet();
    let sig = [0x42u8; 64];
    let mut ctx = valid_context(&bet, &sig);
    // flip one byte of the attested message
    let n = ctx.instructions[0].data.len();
    ctx.instructions[0].data[n - 1] ^= 1;
    assert_eq!(ctx.verify_ed25519_signature(&sig), Err(DiceError::MessageMismatch));
}

#[test]
fn cross_bet_replay_is_rejected() {
    let bet_a = sample_bet();
    let sig = [0x42u8; 64];
    let ctx_a = valid_context(&bet_a, &sig);
    assert_eq!(ctx_a.verify_ed25519_signature(&sig), Ok(()));
    // same player, same record, but a different bet under resolution
    let mut bet_b = bet_a;
    bet_b.seed = 8;
    let ctx_b = ResolveBet { bet: bet_b, instructions: ctx_a.instructions };
    assert_eq!(ctx_b.verify_ed25519_signature(&sig), Err(DiceError::MessageMismatch));
}

#[test]
fn winning_scenario_pays_fee_adjusted_stake() {
    let bet = Bet { player: [7u8; 32], seed: 7, roll: 60, amount: 1000, bump: 254 };
    let sig = [0x42u8; 64];
    let ctx = valid_context(&bet, &sig);
    assert_eq!(ctx.verify_ed25519_signature(&sig), Ok(()));
    // a digest whose halves sum to 44 yields roll 45
    let mut digest = [0u8; 32];
    digest[0] = 44;
    let roll = roll_from_digest(&digest);
    assert_eq!(roll, 45);
    assert_eq!(settle(&bet, roll), Ok(Outcome::Win { payout: 985 }));
    // the full resolution agrees with the roll its own digest yields
    let derived = derive_roll(&sig);
    let expected = if bet.roll >= derived {
        Outcome::Win { payout: 985 }
    } else {
        Outcome::Loss
    };
    assert_eq!(ctx.resolve_bet(&sig), Ok(expected));
}

#[test]
fn losing_scenario_moves_nothing() {
    let bet = Bet { player: [7u8; 32], seed: 7, roll: 60, amount: 1000, bump: 254 };
    // a digest whose halves sum to 60 yields roll 61: a loss against 60
    let mut digest = [0u8; 32];
    digest[0] = 60;
    let roll = roll_from_digest(&digest);
    assert_eq!(roll, 61);
    assert_eq!(settle(&bet, roll), Ok(Outcome::Loss));
}
