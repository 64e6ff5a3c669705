//! Byte-level helpers: equality of byte strings, little-endian decoding of
//! fixed-width integers, and copying a sub-range of a buffer.

use vstd::prelude::*;
use vstd::slice::{slice_subrange, slice_to_vec};

verus! {

/// Compares two byte strings for equality.
pub fn bytes_eq(a: &[u8], b: &[u8]) -> (r: bool)
    ensures
        r == (a@ == b@),
{
    if a.len() != b.len() {
        return false;
    }
    let mut i: usize = 0;
    while i < a.len()
        invariant
            i <= a@.len(),
            a@.len() == b@.len(),
            forall|j: int| 0 <= j < i ==> a@[j] == b@[j],
        decreases a@.len() - i,
    {
        if a[i] != b[i] {
            return false;
        }
        i = i + 1;
    }
    proof {
        assert(a@ =~= b@);
    }
    true
}

/// The value of a two-byte little-endian unsigned integer.
pub open spec fn u16_le_spec(s: Seq<u8>) -> int
    recommends
        s.len() == 2,
{
    s[0] + s[1] * 0x100
}

/// Reads a two-byte little-endian unsigned integer at `off`.
pub fn read_u16_le(data: &[u8], off: usize) -> (r: u16)
    requires
        off + 2 <= data@.len(),
    ensures
        r == u16_le_spec(data@.subrange(off as int, off as int + 2)),
{
    let r: u16 = data[off] as u16 + (data[off + 1] as u16) * 0x100;
    proof {
        let s = data@.subrange(off as int, off as int + 2);
        assert(s[0] == data@[off as int]);
        assert(s[1] == data@[off as int + 1]);
    }
    r
}

/// The value of a sixteen-byte little-endian unsigned integer.
pub open spec fn u128_le_spec(s: Seq<u8>) -> int
    recommends
        s.len() == 16,
{
    s[0] + s[1] * 0x100 + s[2] * 0x10000 + s[3] * 0x1000000 + s[4] * 0x100000000 + s[5]
        * 0x10000000000 + s[6] * 0x1000000000000 + s[7] * 0x100000000000000 + s[8]
        * 0x10000000000000000 + s[9] * 0x1000000000000000000 + s[10] * 0x100000000000000000000
        + s[11] * 0x10000000000000000000000 + s[12] * 0x1000000000000000000000000 + s[13]
        * 0x100000000000000000000000000 + s[14] * 0x10000000000000000000000000000 + s[15]
        * 0x1000000000000000000000000000000
}

/// Reads a sixteen-byte little-endian unsigned integer at `off`.
pub fn read_u128_le(data: &[u8], off: usize) -> (r: u128)
    requires
        off + 16 <= data@.len(),
    ensures
        r == u128_le_spec(data@.subrange(off as int, off as int + 16)),
{
    let r: u128 = data[off] as u128 + (data[off + 1] as u128) * 0x100 + (data[off + 2] as u128)
        * 0x10000 + (data[off + 3] as u128) * 0x1000000 + (data[off + 4] as u128) * 0x100000000 + (
    data[off + 5] as u128) * 0x10000000000 + (data[off + 6] as u128) * 0x1000000000000 + (data[off
        + 7] as u128) * 0x100000000000000 + (data[off + 8] as u128) * 0x10000000000000000 + (
    data[off + 9] as u128) * 0x1000000000000000000 + (data[off + 10] as u128)
        * 0x100000000000000000000 + (data[off + 11] as u128) * 0x10000000000000000000000 + (
    data[off + 12] as u128) * 0x1000000000000000000000000 + (data[off + 13] as u128)
        * 0x100000000000000000000000000 + (data[off + 14] as u128) * 0x10000000000000000000000000000
        + (data[off + 15] as u128) * 0x1000000000000000000000000000000;
    proof {
        let s = data@.subrange(off as int, off as int + 16);
        assert forall|k: int| 0 <= k < 16 implies s[k] == data@[off + k] by {}
    }
    r
}

/// Copies `len` bytes starting at `off` out of `data`.
pub fn copy_range(data: &[u8], off: usize, len: usize) -> (r: Vec<u8>)
    requires
        off + len <= data@.len(),
    ensures
        r@ == data@.subrange(off as int, off as int + len as int),
{
    let total: usize = data.len();
    assert(off + len <= total);
    slice_to_vec(slice_subrange(data, off, off + len))
}

/// The eight bytes of `x` in little-endian order.
pub open spec fn u64_le_bytes(x: u64) -> Seq<u8> {
    seq![
        (x as int % 0x100) as u8,
        (x as int / 0x100 % 0x100) as u8,
        (x as int / 0x10000 % 0x100) as u8,
        (x as int / 0x1000000 % 0x100) as u8,
        (x as int / 0x100000000 % 0x100) as u8,
        (x as int / 0x10000000000 % 0x100) as u8,
        (x as int / 0x1000000000000 % 0x100) as u8,
        (x as int / 0x100000000000000 % 0x100) as u8,
    ]
}

/// Appends the eight little-endian bytes of `x` to `out`.
pub fn push_u64_le(out: &mut Vec<u8>, x: u64)
    ensures
        final(out)@ == old(out)@ + u64_le_bytes(x),
{
    out.push((x % 0x100) as u8);
    out.push((x / 0x100 % 0x100) as u8);
    out.push((x / 0x10000 % 0x100) as u8);
    out.push((x / 0x1000000 % 0x100) as u8);
    out.push((x / 0x100000000 % 0x100) as u8);
    out.push((x / 0x10000000000 % 0x100) as u8);
    out.push((x / 0x1000000000000 % 0x100) as u8);
    out.push((x / 0x100000000000000 % 0x100) as u8);
    proof {
        assert(out@ =~= old(out)@ + u64_le_bytes(x));
    }
}

} // verus!
