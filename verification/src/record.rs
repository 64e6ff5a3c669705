//! The auxiliary verification record and the parser for its payload.
//!
//! The native ed25519 verification facility is invoked with a payload laid
//! out as: an entry count byte, one padding byte, then one fourteen-byte
//! offsets table per entry (seven little-endian sixteen-bit fields), and
//! finally the raw bytes — public keys, signatures and messages — that the
//! offsets point into. An offsets field equal to `0xFFFF` in an
//! instruction-index slot marks the component as living in this same payload,
//! which is the only case in which the facility verifiably checked it.

use vstd::prelude::*;
use crate::bytes::u16_le_spec;
use crate::bytes::read_u16_le;
use crate::bytes::copy_range;

verus! {

/// A verification record as handed in by the surrounding environment:
/// the identifier of the program that produced it, how many account
/// references it carries, and its raw payload.
pub struct VerificationRecord {
    /// Identifier of the originating program or service.
    pub program_id: [u8; 32],
    /// Number of account references attached to the record.
    pub account_count: usize,
    /// The raw payload.
    pub data: Vec<u8>,
}

/// One signature entry recovered from a record's payload. A component is
/// `None` when its offsets point outside the payload.
pub struct SignatureEntry {
    /// Whether every component of the entry lives in this payload, so that
    /// the native facility verifiably checked exactly these bytes.
    pub is_verifiable: bool,
    /// The embedded thirty-two-byte public key.
    pub public_key: Option<Vec<u8>>,
    /// The embedded sixty-four-byte signature.
    pub signature: Option<Vec<u8>>,
    /// The embedded signed message.
    pub message: Option<Vec<u8>>,
}

/// How many entries the payload announces.
pub open spec fn entry_count(data: Seq<u8>) -> int
    recommends
        data.len() >= 1,
{
    data[0] as int
}

/// Whether the payload is long enough for its header and offsets tables.
pub open spec fn header_ok(data: Seq<u8>) -> bool {
    data.len() >= 2 && data.len() >= 2 + 14 * entry_count(data)
}

/// Start of entry `i`'s offsets table.
pub open spec fn table_base(i: int) -> int {
    2 + 14 * i
}

/// A two-byte field of entry `i`'s offsets table, `k` fields in.
pub open spec fn table_field(data: Seq<u8>, i: int, k: int) -> int {
    u16_le_spec(data.subrange(table_base(i) + 2 * k, table_base(i) + 2 * k + 2))
}

/// Offset of entry `i`'s signature bytes.
pub open spec fn sig_off(data: Seq<u8>, i: int) -> int {
    table_field(data, i, 0)
}

/// Offset of entry `i`'s public key bytes.
pub open spec fn pk_off(data: Seq<u8>, i: int) -> int {
    table_field(data, i, 2)
}

/// Offset of entry `i`'s message bytes.
pub open spec fn msg_off(data: Seq<u8>, i: int) -> int {
    table_field(data, i, 4)
}

/// Length of entry `i`'s message.
pub open spec fn msg_size(data: Seq<u8>, i: int) -> int {
    table_field(data, i, 5)
}

/// Whether every instruction-index slot of entry `i` names this payload.
pub open spec fn entry_verifiable(data: Seq<u8>, i: int) -> bool {
    table_field(data, i, 1) == 0xFFFF && table_field(data, i, 3) == 0xFFFF && table_field(
        data,
        i,
        6,
    ) == 0xFFFF
}

/// Whether entry `i`'s signature bytes lie inside the payload.
pub open spec fn sig_in_bounds(data: Seq<u8>, i: int) -> bool {
    sig_off(data, i) + 64 <= data.len()
}

/// Entry `i`'s signature bytes.
pub open spec fn sig_bytes(data: Seq<u8>, i: int) -> Seq<u8> {
    data.subrange(sig_off(data, i), sig_off(data, i) + 64)
}

/// Whether entry `i`'s public key bytes lie inside the payload.
pub open spec fn pk_in_bounds(data: Seq<u8>, i: int) -> bool {
    pk_off(data, i) + 32 <= data.len()
}

/// Entry `i`'s public key bytes.
pub open spec fn pk_bytes(data: Seq<u8>, i: int) -> Seq<u8> {
    data.subrange(pk_off(data, i), pk_off(data, i) + 32)
}

/// Whether entry `i`'s message bytes lie inside the payload.
pub open spec fn msg_in_bounds(data: Seq<u8>, i: int) -> bool {
    msg_off(data, i) + msg_size(data, i) <= data.len()
}

/// Entry `i`'s message bytes.
pub open spec fn msg_bytes(data: Seq<u8>, i: int) -> Seq<u8> {
    data.subrange(msg_off(data, i), msg_off(data, i) + msg_size(data, i))
}

/// What a correctly parsed entry holds, component by component.
pub open spec fn entry_matches(e: SignatureEntry, data: Seq<u8>, i: int) -> bool {
    &&& e.is_verifiable == entry_verifiable(data, i)
    &&& match e.signature {
        Some(s) => sig_in_bounds(data, i) && s@ == sig_bytes(data, i),
        None => !sig_in_bounds(data, i),
    }
    &&& match e.public_key {
        Some(p) => pk_in_bounds(data, i) && p@ == pk_bytes(data, i),
        None => !pk_in_bounds(data, i),
    }
    &&& match e.message {
        Some(m) => msg_in_bounds(data, i) && m@ == msg_bytes(data, i),
        None => !msg_in_bounds(data, i),
    }
}

/// Parses a record payload into its signature entries. Returns `None`
/// exactly when the payload is too short for its announced entry count.
pub fn parse_signature_entries(data: &[u8]) -> (r: Option<Vec<SignatureEntry>>)
    ensures
        r is Some <==> header_ok(data@),
        r matches Some(v) ==> v@.len() == entry_count(data@) && forall|i: int|
            0 <= i < v@.len() ==> entry_matches(#[trigger] v@[i], data@, i),
{
    if data.len() < 2 {
        return None;
    }
    let n = data[0] as usize;
    if data.len() < 2 + 14 * n {
        return None;
    }
    let mut entries: Vec<SignatureEntry> = Vec::new();
    let mut i: usize = 0;
    while i < n
        invariant
            i <= n,
            n == entry_count(data@),
            header_ok(data@),
            data@.len() >= 2 + 14 * n,
            entries@.len() == i,
            forall|j: int| 0 <= j < i ==> entry_matches(#[trigger] entries@[j], data@, j),
        decreases n - i,
    {
        let base: usize = 2 + 14 * i;
        let sig_offset = read_u16_le(data, base) as usize;
        let sig_ix = read_u16_le(data, base + 2);
        let pk_offset = read_u16_le(data, base + 4) as usize;
        let pk_ix = read_u16_le(data, base + 6);
        let msg_offset = read_u16_le(data, base + 8) as usize;
        let msg_len = read_u16_le(data, base + 10) as usize;
        let msg_ix = read_u16_le(data, base + 12);
        let signature = if sig_offset + 64 <= data.len() {
            Some(copy_range(data, sig_offset, 64))
        } else {
            None
        };
        let public_key = if pk_offset + 32 <= data.len() {
            Some(copy_range(data, pk_offset, 32))
        } else {
            None
        };
        let message = if msg_offset + msg_len <= data.len() {
            Some(copy_range(data, msg_offset, msg_len))
        } else {
            None
        };
        let entry = SignatureEntry {
            is_verifiable: sig_ix == 0xFFFF && pk_ix == 0xFFFF && msg_ix == 0xFFFF,
            public_key,
            signature,
            message,
        };
        proof {
            assert(entry_matches(entry, data@, i as int));
        }
        entries.push(entry);
        i = i + 1;
    }
    Some(entries)
}

} // verus!
