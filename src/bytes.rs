use vstd::prelude::*;

verus! {

/// The little-endian 16-bit value at offset `o`.
pub open spec fn le16(d: Seq<u8>, o: int) -> int {
    d[o] as int + d[o + 1] as int * 256
}

/// The little-endian 32-bit value at offset `o`.
pub open spec fn le32(d: Seq<u8>, o: int) -> int {
    le16(d, o) + le16(d, o + 2) * 65536
}

/// The little-endian 64-bit value at offset `o`.
pub open spec fn le64(d: Seq<u8>, o: int) -> int {
    le32(d, o) + le32(d, o + 4) * 4294967296
}

/// `d` with the eight bytes at `o` replaced by `v` in little-endian order.
pub open spec fn put_le64(d: Seq<u8>, o: int, v: u64) -> Seq<u8> {
    d.update(o, v as u8).update(o + 1, (v >> 8u64) as u8).update(o + 2, (v >> 16u64) as u8).update(
        o + 3,
        (v >> 24u64) as u8,
    ).update(o + 4, (v >> 32u64) as u8).update(o + 5, (v >> 40u64) as u8).update(
        o + 6,
        (v >> 48u64) as u8,
    ).update(o + 7, (v >> 56u64) as u8)
}

/// `d` with the four bytes at `o` replaced by `v` in little-endian order.
pub open spec fn put_le32(d: Seq<u8>, o: int, v: u32) -> Seq<u8> {
    d.update(o, v as u8).update(o + 1, (v >> 8u32) as u8).update(o + 2, (v >> 16u32) as u8).update(
        o + 3,
        (v >> 24u32) as u8,
    )
}

/// Whether `n` bytes starting at `off` lie inside a buffer of length `len`.
pub fn fits(len: usize, off: usize, n: usize) -> (r: bool)
    ensures
        r == (off + n <= len),
{
    off <= len && n <= len - off
}

pub fn read_u16(d: &[u8], o: usize) -> (r: u16)
    requires
        o + 2 <= d@.len(),
    ensures
        r as int == le16(d@, o as int),
{
    d[o] as u16 + (d[o + 1] as u16) * 256
}

pub fn read_u32(d: &[u8], o: usize) -> (r: u32)
    requires
        o + 4 <= d@.len(),
    ensures
        r as int == le32(d@, o as int),
{
    let n: usize = d.len();
    assert(o + 4 <= n);
    let lo = read_u16(d, o);
    let hi = read_u16(d, o + 2);
    lo as u32 + (hi as u32) * 65536
}

pub fn read_u64(d: &[u8], o: usize) -> (r: u64)
    requires
        o + 8 <= d@.len(),
    ensures
        r as int == le64(d@, o as int),
{
    let n: usize = d.len();
    assert(o + 8 <= n);
    let lo = read_u32(d, o);
    let hi = read_u32(d, o + 4);
    lo as u64 + (hi as u64) * 4294967296
}

pub fn write_u64(d: &mut Vec<u8>, o: usize, v: u64)
    requires
        o + 8 <= old(d)@.len(),
    ensures
        final(d)@ == put_le64(old(d)@, o as int, v),
{
    let n = d.len();
    assert(o + 8 <= n);
    d.set(o, #[verifier::truncate] (v as u8));
    d.set(o + 1, #[verifier::truncate] ((v >> 8u64) as u8));
    d.set(o + 2, #[verifier::truncate] ((v >> 16u64) as u8));
    d.set(o + 3, #[verifier::truncate] ((v >> 24u64) as u8));
    d.set(o + 4, #[verifier::truncate] ((v >> 32u64) as u8));
    d.set(o + 5, #[verifier::truncate] ((v >> 40u64) as u8));
    d.set(o + 6, #[verifier::truncate] ((v >> 48u64) as u8));
    d.set(o + 7, #[verifier::truncate] ((v >> 56u64) as u8));
}

pub fn write_u32(d: &mut Vec<u8>, o: usize, v: u32)
    requires
        o + 4 <= old(d)@.len(),
    ensures
        final(d)@ == put_le32(old(d)@, o as int, v),
{
    let n = d.len();
    assert(o + 4 <= n);
    d.set(o, #[verifier::truncate] (v as u8));
    d.set(o + 1, #[verifier::truncate] ((v >> 8u32) as u8));
    d.set(o + 2, #[verifier::truncate] ((v >> 16u32) as u8));
    d.set(o + 3, #[verifier::truncate] ((v >> 24u32) as u8));
}

} // verus!
