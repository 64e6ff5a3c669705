use bet_resolver::commitment::BetCommitment;
use bet_resolver::engine::{ResolveBet, ResolveError};
use bet_resolver::outcome::{compute_payout, resolve_outcome, roll_from_digest, ArithmeticError};
use bet_resolver::record::{parse_signature_entries, VerificationRecord};
use bet_resolver::sigcheck::{ed25519_verifier_id, verify_record, VerificationError};

fn sample_bet() -> BetCommitment {
    BetCommitment {
        seed: 7,
        player: [4u8; 32],
        amount: 1_000_000,
        target: 50,
        bump: 254,
    }
}

/// Lays out a payload the way the native ed25519 facility is invoked: count,
/// padding, one offsets table per entry, then key, signature and message.
fn build_payload(pk: &[u8; 32], sig: &[u8; 64], msg: &[u8]) -> Vec<u8> {
    let pk_off: u16 = 16;
    let sig_off: u16 = 48;
    let msg_off: u16 = 112;
    let mut data = vec![1u8, 0u8];
    data.extend_from_slice(&sig_off.to_le_bytes());
    data.extend_from_slice(&0xFFFFu16.to_le_bytes());
    data.extend_from_slice(&pk_off.to_le_bytes());
    data.extend_from_slice(&0xFFFFu16.to_le_bytes());
    data.extend_from_slice(&msg_off.to_le_bytes());
    data.extend_from_slice(&(msg.len() as u16).to_le_bytes());
    data.extend_from_slice(&0xFFFFu16.to_le_bytes());
    data.extend_from_slice(pk);
    data.extend_from_slice(sig);
    data.extend_from_slice(msg);
    data
}

fn genuine_record(house: &[u8; 32], sig: &[u8; 64], msg: &[u8]) -> VerificationRecord {
    VerificationRecord {
        program_id: ed25519_verifier_id(),
        account_count: 0,
        data: build_payload(house, sig, msg),
    }
}

#[test]
fn verify_accepts_genuine_record() {
    let bet = sample_bet();
    let house = [9u8; 32];
    let sig = [0xCDu8; 64];
    let record = genuine_record(&house, &sig, &bet.to_slice());
    assert_eq!(verify_record(&house, &bet, &sig, Some(&record)), Ok(()));
}

#[test]
fn verify_rejects_missing_record() {
    let bet = sample_bet();
    assert_eq!(
        verify_record(&[9u8; 32], &bet, &[0xCDu8; 64], None),
        Err(VerificationError::MissingVerificationRecord)
    );
}

#[test]
fn verify_rejects_wrong_verifier_before_content() {
    // Zero accounts attached, but a wrong origin identifier: rejected as
    // WrongVerifier before any content is inspected.
    let bet = sample_bet();
    let house = [9u8; 32];
    let sig = [0xCDu8; 64];
    let mut record = genuine_record(&house, &sig, &bet.to_slice());
    record.program_id = [1u8; 32];
    assert_eq!(
        verify_record(&house, &bet, &sig, Some(&record)),
        Err(VerificationError::WrongVerifier)
    );
}

#[test]
fn verify_rejects_unexpected_accounts() {
    let bet = sample_bet();
    let house = [9u8; 32];
    let sig = [0xCDu8; 64];
    let mut record = genuine_record(&house, &sig, &bet.to_slice());
    record.account_count = 1;
    assert_eq!(
        verify_record(&house, &bet, &sig, Some(&record)),
        Err(VerificationError::UnexpectedAccounts)
    );
}

#[test]
fn verify_rejects_two_signature_entries() {
    let bet = sample_bet();
    let house = [9u8; 32];
    let sig = [0xCDu8; 64];
    let mut record = genuine_record(&house, &sig, &bet.to_slice());
    // Announce a second entry and append a second offsets table for it.
    record.data[0] = 2;
    let mut table = Vec::new();
    for _ in 0..7 {
        table.extend_from_slice(&0xFFFFu16.to_le_bytes());
    }
    record.data.splice(16..16, table);
    assert_eq!(
        verify_record(&house, &bet, &sig, Some(&record)),
        Err(VerificationError::SignatureCountMismatch)
    );
}

#[test]
fn verify_rejects_zero_signature_entries() {
    let bet = sample_bet();
    let house = [9u8; 32];
    let record = VerificationRecord {
        program_id: ed25519_verifier_id(),
        account_count: 0,
        data: vec![0u8, 0u8],
    };
    assert_eq!(
        verify_record(&house, &bet, &[0xCDu8; 64], Some(&record)),
        Err(VerificationError::SignatureCountMismatch)
    );
}

#[test]
fn verify_rejects_truncated_payload() {
    let bet = sample_bet();
    let house = [9u8; 32];
    let record = VerificationRecord {
        program_id: ed25519_verifier_id(),
        account_count: 0,
        data: vec![1u8, 0u8, 5u8],
    };
    assert_eq!(
        verify_record(&house, &bet, &[0xCDu8; 64], Some(&record)),
        Err(VerificationError::SignatureCountMismatch)
    );
}

#[test]
fn verify_rejects_unverifiable_entry() {
    let bet = sample_bet();
    let house = [9u8; 32];
    let sig = [0xCDu8; 64];
    let mut record = genuine_record(&house, &sig, &bet.to_slice());
    // The signature's instruction-index slot no longer names this payload.
    record.data[4] = 0;
    record.data[5] = 0;
    assert_eq!(
        verify_record(&house, &bet, &sig, Some(&record)),
        Err(VerificationError::NotVerifiable)
    );
}

#[test]
fn verify_rejects_mutated_public_key() {
    let bet = sample_bet();
    let house = [9u8; 32];
    let sig = [0xCDu8; 64];
    let mut record = genuine_record(&house, &sig, &bet.to_slice());
    record.data[16] ^= 1;
    assert_eq!(
        verify_record(&house, &bet, &sig, Some(&record)),
        Err(VerificationError::PublicKeyMismatch)
    );
}

#[test]
fn verify_rejects_mutated_signature() {
    let bet = sample_bet();
    let house = [9u8; 32];
    let sig = [0xCDu8; 64];
    let mut record = genuine_record(&house, &sig, &bet.to_slice());
    record.data[48] ^= 1;
    assert_eq!(
        verify_record(&house, &bet, &sig, Some(&record)),
        Err(VerificationError::SignatureBytesMismatch)
    );
}

#[test]
fn verify_rejects_mutated_message() {
    let bet = sample_bet();
    let house = [9u8; 32];
    let sig = [0xCDu8; 64];
    let mut msg = bet.to_slice();
    msg[0] ^= 1;
    let record = genuine_record(&house, &sig, &msg);
    assert_eq!(
        verify_record(&house, &bet, &sig, Some(&record)),
        Err(VerificationError::MessageMismatch)
    );
}

#[test]
fn parser_recovers_entry_components() {
    let pk = [7u8; 32];
    let sig = [8u8; 64];
    let msg = [9u8; 10];
    let data = build_payload(&pk, &sig, &msg);
    let entries = parse_signature_entries(&data).expect("well-formed payload");
    assert_eq!(entries.len(), 1);
    assert!(entries[0].is_verifiable);
    assert_eq!(entries[0].public_key.as_deref(), Some(&pk[..]));
    assert_eq!(entries[0].signature.as_deref(), Some(&sig[..]));
    assert_eq!(entries[0].message.as_deref(), Some(&msg[..]));
}

#[test]
fn parser_rejects_short_payload() {
    assert!(parse_signature_entries(&[]).is_none());
    assert!(parse_signature_entries(&[1u8]).is_none());
    assert!(parse_signature_entries(&[1u8, 0u8, 0u8]).is_none());
}

#[test]
fn parser_marks_out_of_bounds_components_absent() {
    let pk = [7u8; 32];
    let sig = [8u8; 64];
    let msg = [9u8; 10];
    let mut data = build_payload(&pk, &sig, &msg);
    // Truncate the message so its range falls outside the payload.
    data.truncate(data.len() - 1);
    let entries = parse_signature_entries(&data).expect("header still well-formed");
    assert_eq!(entries.len(), 1);
    assert!(entries[0].message.is_none());
    assert!(entries[0].public_key.is_some());
}

#[test]
fn verify_rejects_out_of_bounds_public_key() {
    let bet = sample_bet();
    let house = [9u8; 32];
    let sig = [0xCDu8; 64];
    let mut record = genuine_record(&house, &sig, &bet.to_slice());
    // Point the public key past the end of the payload.
    let far = (record.data.len() as u16).to_le_bytes();
    record.data[6] = far[0];
    record.data[7] = far[1];
    assert_eq!(
        verify_record(&house, &bet, &sig, Some(&record)),
        Err(VerificationError::PublicKeyMismatch)
    );
}

#[test]
fn verify_rejects_out_of_bounds_message() {
    let bet = sample_bet();
    let house = [9u8; 32];
    let sig = [0xCDu8; 64];
    let mut record = genuine_record(&house, &sig, &bet.to_slice());
    // Claim one more message byte than the payload holds.
    let msg_len = bet.to_slice().len() as u16 + 1;
    let len_bytes = msg_len.to_le_bytes();
    record.data[12] = len_bytes[0];
    record.data[13] = len_bytes[1];
    assert_eq!(
        verify_record(&house, &bet, &sig, Some(&record)),
        Err(VerificationError::MessageMismatch)
    );
}

#[test]
fn verifier_id_matches_native_facility() {
    assert_eq!(
        ed25519_verifier_id(),
        solana_program::ed25519_program::ID.to_bytes()
    );
}

#[test]
fn serialization_is_fixed_order_fixed_width() {
    let bet = BetCommitment {
        seed: 0x0102030405060708,
        player: [0xAAu8; 32],
        amount: 0x1122334455667788,
        target: 2,
        bump: 255,
    };
    let bytes = bet.to_slice();
    assert_eq!(bytes.len(), 50);
    assert_eq!(&bytes[0..32], &[0xAAu8; 32][..]);
    assert_eq!(&bytes[32..40], &[8, 7, 6, 5, 4, 3, 2, 1]);
    assert_eq!(&bytes[40..48], &[0x88, 0x77, 0x66, 0x55, 0x44, 0x33, 0x22, 0x11]);
    assert_eq!(bytes[48], 2);
    assert_eq!(bytes[49], 255);
}

#[test]
fn roll_is_in_range_for_extreme_digests() {
    let all_zero = roll_from_digest(&[0u8; 32]);
    assert_eq!(all_zero, 1);
    let all_ff = roll_from_digest(&[0xFFu8; 32]);
    assert_eq!(all_ff, 55);
    assert!((1..=100).contains(&all_zero));
    assert!((1..=100).contains(&all_ff));
    let mut varied = [0u8; 32];
    for (i, b) in varied.iter_mut().enumerate() {
        *b = (i * 37 % 256) as u8;
    }
    let r = roll_from_digest(&varied);
    assert!((1..=100).contains(&r));
}

#[test]
fn roll_matches_native_digest() {
    // The same derivation run on the digest that the native hasher returns:
    // catches the digest wrapper handing back anything but the SHA-256 of
    // the signature bytes.
    let sig = [0xABu8; 64];
    let digest = solana_program::hash::hash(&sig).to_bytes();
    let lower = u128::from_le_bytes(digest[0..16].try_into().unwrap());
    let upper = u128::from_le_bytes(digest[16..32].try_into().unwrap());
    let expected = (lower.wrapping_add(upper) % 100) as u8 + 1;
    assert_eq!(expected, 9);
    let outcome = resolve_outcome(100, 100, &sig).expect("payout in range");
    assert_eq!(outcome.roll, 9);
    assert!(outcome.won);
}

#[test]
fn payout_formula_exact() {
    // divisor target - 1 = 1: amount * 99850 / 1 / 100
    assert_eq!(compute_payout(100, 2), Ok(99850));
    // the stated division order: 100 * 99850 = 9985000, / 99, / 100
    assert_eq!(compute_payout(100, 100), Ok(9985000 / 99 / 100));
    assert_eq!(compute_payout(0, 2), Ok(0));
    assert_eq!(compute_payout(0, 100), Ok(0));
}

#[test]
fn payout_rejects_target_one() {
    assert_eq!(compute_payout(100, 1), Err(ArithmeticError::Overflow));
    assert_eq!(compute_payout(0, 1), Err(ArithmeticError::Overflow));
    assert_eq!(compute_payout(u64::MAX, 0), Err(ArithmeticError::Overflow));
}

#[test]
fn payout_rejects_overflowing_amount() {
    // u64::MAX * 99850 / 1 / 100 exceeds the transferable width.
    assert_eq!(compute_payout(u64::MAX, 2), Err(ArithmeticError::Overflow));
}

#[test]
fn resolve_runs_verifier_before_calculator() {
    let house = [9u8; 32];
    let mut bet = sample_bet();
    bet.target = 1;
    let sig = [0xCDu8; 64];
    let engine = ResolveBet { house, bet };
    // A bad record is rejected before the calculator can fail on target 1.
    assert_eq!(
        engine.resolve(&sig, None),
        Err(ResolveError::Verification(
            VerificationError::MissingVerificationRecord
        ))
    );
}

#[test]
fn resolve_full_win_and_loss() {
    let house = [9u8; 32];
    let sig = [0xCDu8; 64];
    // The digest of this signature yields some fixed roll; pick targets on
    // both sides of it.
    let digest = solana_program::hash::hash(&sig).to_bytes();
    let roll = roll_from_digest(&digest);

    let mut bet = sample_bet();
    bet.target = 100;
    let record = genuine_record(&house, &sig, &bet.to_slice());
    let engine = ResolveBet { house, bet };
    let outcome = engine.resolve(&sig, Some(&record)).expect("resolves");
    assert_eq!(outcome.roll, roll);
    if roll < 100 {
        assert!(outcome.won);
        assert_eq!(outcome.payout, 1_000_000u64 * 99850 / 99 / 100);
    } else {
        assert!(!outcome.won);
        assert_eq!(outcome.payout, 0);
    }

    let mut losing = sample_bet();
    losing.target = 2;
    let record2 = genuine_record(&house, &sig, &losing.to_slice());
    let engine2 = ResolveBet { house, bet: losing };
    let outcome2 = engine2.resolve(&sig, Some(&record2)).expect("resolves");
    if outcome2.roll == 1 {
        assert!(outcome2.won);
    } else {
        assert!(!outcome2.won);
        assert_eq!(outcome2.payout, 0);
    }
}
