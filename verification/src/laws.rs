//! Laws of the resolution engine, stated and proved over the same spec
//! functions that the executable functions' contracts use.

use vstd::prelude::*;
use crate::commitment::BetCommitment;
use crate::record::VerificationRecord;
use crate::record::entry_count;
use crate::record::header_ok;
use crate::record::entry_verifiable;
use crate::record::sig_in_bounds;
use crate::record::sig_bytes;
use crate::record::pk_in_bounds;
use crate::record::pk_bytes;
use crate::record::msg_in_bounds;
use crate::record::msg_bytes;
use crate::sigcheck::VerificationError;
use crate::sigcheck::ed25519_verifier_id_spec;
use crate::sigcheck::spec_verify;
use crate::outcome::spec_roll;
use crate::outcome::spec_payout;

verus! {

/// Law: a record from the native facility with no account references, whose
/// payload parses to exactly one verifiable entry carrying the authority's
/// key, the supplied signature, and the bet's canonical serialization,
/// passes verification.
pub proof fn lemma_verify_accepts_genuine(
    authority: Seq<u8>,
    bet: BetCommitment,
    sig: Seq<u8>,
    record: VerificationRecord,
)
    requires
        record.program_id@ == ed25519_verifier_id_spec(),
        record.account_count == 0,
        header_ok(record.data@),
        entry_count(record.data@) == 1,
        entry_verifiable(record.data@, 0),
        pk_in_bounds(record.data@, 0),
        pk_bytes(record.data@, 0) == authority,
        sig_in_bounds(record.data@, 0),
        sig_bytes(record.data@, 0) == sig,
        msg_in_bounds(record.data@, 0),
        msg_bytes(record.data@, 0) == bet.serialized_spec(),
    ensures
        spec_verify(authority, bet, sig, Some(record)) == Ok::<(), VerificationError>(()),
{
}

/// Law: with the structural checks passing, an embedded public key that
/// differs from the authority's at even one byte is rejected as a public key
/// mismatch.
pub proof fn lemma_verify_rejects_key_mutation(
    authority: Seq<u8>,
    bet: BetCommitment,
    sig: Seq<u8>,
    record: VerificationRecord,
    k: int,
)
    requires
        record.program_id@ == ed25519_verifier_id_spec(),
        record.account_count == 0,
        header_ok(record.data@),
        entry_count(record.data@) == 1,
        entry_verifiable(record.data@, 0),
        pk_in_bounds(record.data@, 0),
        0 <= k < authority.len(),
        pk_bytes(record.data@, 0).len() == authority.len(),
        pk_bytes(record.data@, 0)[k] != authority[k],
    ensures
        spec_verify(authority, bet, sig, Some(record)) == Err::<(), VerificationError>(
            VerificationError::PublicKeyMismatch,
        ),
{
    assert(pk_bytes(record.data@, 0) != authority);
}

/// Law: with the structural checks and the public key in order, an embedded
/// signature that differs from the supplied signature bytes at even one byte
/// is rejected as a signature bytes mismatch.
pub proof fn lemma_verify_rejects_signature_mutation(
    authority: Seq<u8>,
    bet: BetCommitment,
    sig: Seq<u8>,
    record: VerificationRecord,
    k: int,
)
    requires
        record.program_id@ == ed25519_verifier_id_spec(),
        record.account_count == 0,
        header_ok(record.data@),
        entry_count(record.data@) == 1,
        entry_verifiable(record.data@, 0),
        pk_in_bounds(record.data@, 0),
        pk_bytes(record.data@, 0) == authority,
        sig_in_bounds(record.data@, 0),
        0 <= k < sig.len(),
        sig_bytes(record.data@, 0).len() == sig.len(),
        sig_bytes(record.data@, 0)[k] != sig[k],
    ensures
        spec_verify(authority, bet, sig, Some(record)) == Err::<(), VerificationError>(
            VerificationError::SignatureBytesMismatch,
        ),
{
    assert(sig_bytes(record.data@, 0) != sig);
}

/// Law: with the structural checks, the public key and the signature all in
/// order, an embedded message that differs from the bet's canonical
/// serialization at even one byte is rejected as a message mismatch.
pub proof fn lemma_verify_rejects_message_mutation(
    authority: Seq<u8>,
    bet: BetCommitment,
    sig: Seq<u8>,
    record: VerificationRecord,
    k: int,
)
    requires
        record.program_id@ == ed25519_verifier_id_spec(),
        record.account_count == 0,
        header_ok(record.data@),
        entry_count(record.data@) == 1,
        entry_verifiable(record.data@, 0),
        pk_in_bounds(record.data@, 0),
        pk_bytes(record.data@, 0) == authority,
        sig_in_bounds(record.data@, 0),
        sig_bytes(record.data@, 0) == sig,
        msg_in_bounds(record.data@, 0),
        0 <= k < bet.serialized_spec().len(),
        msg_bytes(record.data@, 0).len() == bet.serialized_spec().len(),
        msg_bytes(record.data@, 0)[k] != bet.serialized_spec()[k],
    ensures
        spec_verify(authority, bet, sig, Some(record)) == Err::<(), VerificationError>(
            VerificationError::MessageMismatch,
        ),
{
    assert(msg_bytes(record.data@, 0) != bet.serialized_spec());
}

/// Law: every digest yields a roll between one and one hundred inclusive.
pub proof fn lemma_roll_in_range(digest: Seq<u8>)
    ensures
        1 <= spec_roll(digest) <= 100,
{
}

/// Law: with the minimum target of two, only a roll of exactly one wins;
/// with the maximum target of one hundred, every roll up to ninety-nine wins
/// and a roll of one hundred loses.
pub proof fn lemma_win_at_extreme_targets(digest: Seq<u8>)
    ensures
        (2 > spec_roll(digest)) <==> (spec_roll(digest) == 1),
        (100 > spec_roll(digest)) <==> (spec_roll(digest) <= 99),
{
    lemma_roll_in_range(digest);
}

/// Law: a zero wager pays zero, whatever the target.
pub proof fn lemma_zero_amount_pays_zero(target: u8)
    requires
        target >= 2,
    ensures
        spec_payout(0, target) == 0,
{
}

} // verus!
