//! The signature verifier: eight checks that a verification record attests
//! that the designated native facility verified exactly the supplied
//! signature, by the authority's key, over the bet's canonical serialization.

use vstd::prelude::*;
use crate::bytes::bytes_eq;
use crate::commitment::BetCommitment;
use crate::record::VerificationRecord;
use crate::record::parse_signature_entries;
use crate::record::entry_count;
use crate::record::header_ok;
use crate::record::entry_verifiable;
use crate::record::sig_in_bounds;
use crate::record::sig_bytes;
use crate::record::pk_in_bounds;
use crate::record::pk_bytes;
use crate::record::msg_in_bounds;
use crate::record::msg_bytes;

verus! {

/// Why a resolution attempt was rejected before any outcome was computed.
#[derive(Debug, Clone, Copy, PartialEq, Eq, Structural)]
pub enum VerificationError {
    /// No verification record stood at the expected position.
    MissingVerificationRecord,
    /// The record did not originate from the native verification facility.
    WrongVerifier,
    /// The record carried account references where none are expected.
    UnexpectedAccounts,
    /// The record's payload did not parse as exactly one signature entry.
    SignatureCountMismatch,
    /// The entry's components were not all verifiably in the payload itself.
    NotVerifiable,
    /// The entry's public key was absent or differed from the authority's.
    PublicKeyMismatch,
    /// The entry's signature was absent or differed from the supplied bytes.
    SignatureBytesMismatch,
    /// The entry's message was absent or differed from the canonical
    /// serialization of the bet commitment.
    MessageMismatch,
}

/// The fixed identifier of the native ed25519 verification facility.
pub open spec fn ed25519_verifier_id_spec() -> Seq<u8> {
    seq![
        3u8,
        125u8,
        70u8,
        214u8,
        124u8,
        147u8,
        251u8,
        190u8,
        18u8,
        249u8,
        66u8,
        143u8,
        131u8,
        141u8,
        64u8,
        255u8,
        5u8,
        112u8,
        116u8,
        73u8,
        39u8,
        244u8,
        138u8,
        100u8,
        252u8,
        202u8,
        112u8,
        68u8,
        128u8,
        0u8,
        0u8,
        0u8,
    ]
}

/// The fixed identifier of the native ed25519 verification facility, as bytes.
pub fn ed25519_verifier_id() -> (r: [u8; 32])
    ensures
        r@ == ed25519_verifier_id_spec(),
{
    let r: [u8; 32] = [
        3u8, 125u8, 70u8, 214u8, 124u8, 147u8, 251u8, 190u8, 18u8, 249u8, 66u8, 143u8, 131u8,
        141u8, 64u8, 255u8, 5u8, 112u8, 116u8, 73u8, 39u8, 244u8, 138u8, 100u8, 252u8, 202u8,
        112u8, 68u8, 128u8, 0u8, 0u8, 0u8,
    ];
    proof {
        assert(r@ =~= ed25519_verifier_id_spec());
    }
    r
}

/// The verdict the eight checks reach on the given inputs: the first check
/// that fails decides the error, and verification succeeds exactly when the
/// record is present, originates from the native facility, carries no account
/// references, parses to a single entry whose components all verifiably live
/// in the payload, and whose key, signature and message equal the authority
/// key, the supplied signature and the bet's canonical serialization.
pub open spec fn spec_verify(
    authority: Seq<u8>,
    bet: BetCommitment,
    sig: Seq<u8>,
    record: Option<VerificationRecord>,
) -> Result<(), VerificationError> {
    match record {
        None => Err(VerificationError::MissingVerificationRecord),
        Some(rec) => {
            let d = rec.data@;
            if rec.program_id@ != ed25519_verifier_id_spec() {
                Err(VerificationError::WrongVerifier)
            } else if rec.account_count != 0 {
                Err(VerificationError::UnexpectedAccounts)
            } else if !header_ok(d) || entry_count(d) != 1 {
                Err(VerificationError::SignatureCountMismatch)
            } else if !entry_verifiable(d, 0) {
                Err(VerificationError::NotVerifiable)
            } else if !(pk_in_bounds(d, 0) && pk_bytes(d, 0) == authority) {
                Err(VerificationError::PublicKeyMismatch)
            } else if !(sig_in_bounds(d, 0) && sig_bytes(d, 0) == sig) {
                Err(VerificationError::SignatureBytesMismatch)
            } else if !(msg_in_bounds(d, 0) && msg_bytes(d, 0) == bet.serialized_spec()) {
                Err(VerificationError::MessageMismatch)
            } else {
                Ok(())
            }
        },
    }
}

/// The record option with the reference stripped, for use in contracts.
pub open spec fn record_value(record: Option<&VerificationRecord>) -> Option<VerificationRecord> {
    match record {
        Some(r) => Some(*r),
        None => None,
    }
}

/// Runs the eight verification checks and returns the verdict that
/// `spec_verify` assigns to these inputs.
pub fn verify_record(
    authority: &[u8; 32],
    bet: &BetCommitment,
    sig: &[u8],
    record: Option<&VerificationRecord>,
) -> (r: Result<(), VerificationError>)
    ensures
        r == spec_verify(authority@, *bet, sig@, record_value(record)),
{
    let rec = match record {
        Some(r) => r,
        None => {
            return Err(VerificationError::MissingVerificationRecord);
        },
    };
    let expected_id = ed25519_verifier_id();
    if !bytes_eq(rec.program_id.as_slice(), expected_id.as_slice()) {
        return Err(VerificationError::WrongVerifier);
    }
    if rec.account_count != 0 {
        return Err(VerificationError::UnexpectedAccounts);
    }
    let entries = match parse_signature_entries(rec.data.as_slice()) {
        Some(e) => e,
        None => {
            return Err(VerificationError::SignatureCountMismatch);
        },
    };
    if entries.len() != 1 {
        return Err(VerificationError::SignatureCountMismatch);
    }
    let entry = &entries[0];
    if !entry.is_verifiable {
        return Err(VerificationError::NotVerifiable);
    }
    match &entry.public_key {
        Some(pk) => {
            if !bytes_eq(pk.as_slice(), authority.as_slice()) {
                return Err(VerificationError::PublicKeyMismatch);
            }
        },
        None => {
            return Err(VerificationError::PublicKeyMismatch);
        },
    }
    match &entry.signature {
        Some(s) => {
            if !bytes_eq(s.as_slice(), sig) {
                return Err(VerificationError::SignatureBytesMismatch);
            }
        },
        None => {
            return Err(VerificationError::SignatureBytesMismatch);
        },
    }
    let expected_msg = bet.to_slice();
    match &entry.message {
        Some(m) => {
            if !bytes_eq(m.as_slice(), expected_msg.as_slice()) {
                return Err(VerificationError::MessageMismatch);
            }
        },
        None => {
            return Err(VerificationError::MessageMismatch);
        },
    }
    Ok(())
}

} // verus!
