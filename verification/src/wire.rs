use byteorder::{BigEndian, ByteOrder};
use vstd::prelude::*;

verus! {

/// The big-endian 16-bit number held by `s[at]` and `s[at + 1]`.
pub open spec fn be_u16_at(s: Seq<u8>, at: int) -> int {
    s[at] * 256 + s[at + 1]
}

/// The big-endian 32-bit number held by `s[at]` through `s[at + 3]`.
pub open spec fn be_u32_at(s: Seq<u8>, at: int) -> int {
    s[at] * 16777216 + s[at + 1] * 65536 + s[at + 2] * 256 + s[at + 3]
}

/// The two bytes, most significant first, that encode `v` in network order.
pub open spec fn be_bytes_u16(v: u16) -> Seq<u8> {
    seq![(v / 256) as u8, (v % 256) as u8]
}

/// Reads a big-endian `u16` at offset `at` with `byteorder::BigEndian::read_u16`,
/// which takes the first two bytes of the slice it is given, most significant
/// first (and panics on fewer than two, which `requires` rules out).
#[verifier::external_body]
pub(crate) fn read_be_u16(data: &[u8], at: usize) -> (v: u16)
    requires
        at + 2 <= data@.len(),
    ensures
        v as int == be_u16_at(data@, at as int),
{
    BigEndian::read_u16(&data[at..])
}

/// Reads a big-endian `u32` at offset `at` with `byteorder::BigEndian::read_u32`,
/// which takes the first four bytes of the slice it is given, most significant
/// first (and panics on fewer than four, which `requires` rules out).
#[verifier::external_body]
pub(crate) fn read_be_u32(data: &[u8], at: usize) -> (v: u32)
    requires
        at + 4 <= data@.len(),
    ensures
        v as int == be_u32_at(data@, at as int),
{
    BigEndian::read_u32(&data[at..])
}

} // verus!
