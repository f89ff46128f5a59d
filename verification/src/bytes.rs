//! Numbers in bytes.

use vstd::prelude::*;

verus! {

/// The number in two bytes, the low one first.
pub open spec fn le16(bytes: Seq<u8>, at: int) -> int {
    bytes[at] + 256 * bytes[at + 1]
}

/// The number in four bytes, the low one first.
pub open spec fn le32(bytes: Seq<u8>, at: int) -> int {
    bytes[at] + 256 * bytes[at + 1] + 65536 * bytes[at + 2] + 16777216 * bytes[at + 3]
}

/// A number as four bytes, the low one first.
pub open spec fn le32_bytes(n: u32) -> Seq<u8> {
    seq![
        (n % 256) as u8,
        (n / 256 % 256) as u8,
        (n / 65536 % 256) as u8,
        (n / 16777216) as u8,
    ]
}

/// The number in four bytes, the low one first.
pub fn read_u32(bytes: &[u8], at: usize) -> (r: u32)
    requires
        at + 4 <= bytes@.len(),
    ensures
        r == le32(bytes@, at as int),
{
    bytes[at] as u32 + 256 * bytes[at + 1] as u32 + 65536 * bytes[at + 2] as u32 + 16777216
        * bytes[at + 3] as u32
}

/// Add a number as four bytes, the low one first.
pub fn push_u32(out: &mut Vec<u8>, n: u32)
    ensures
        final(out)@ == old(out)@ + le32_bytes(n),
{
    out.push((n % 256) as u8);
    out.push((n / 256 % 256) as u8);
    out.push((n / 65536 % 256) as u8);
    out.push((n / 16777216) as u8);
    assert(out@ =~= old(out)@ + le32_bytes(n));
}

/// The number in two bytes, the low one first.
pub fn read_u16(bytes: &[u8], at: usize) -> (r: u16)
    requires
        at + 2 <= bytes@.len(),
    ensures
        r == le16(bytes@, at as int),
{
    bytes[at] as u16 + 256 * bytes[at + 1] as u16
}

/// A number in bytes has its ones in the first of them: two bytes count 1 and
/// 0x100, four count 1, 0x100, 0x10000 and 0x1000000, and a number that is written
/// is read back.
pub proof fn low_byte_comes_first(n: u32, at: int)
    requires
        at >= 0,
    ensures
        le32(le32_bytes(n), 0) == n,
        le32_bytes(n).len() == 4,
        n < 0x100 ==> le32_bytes(n) == seq![n as u8, 0u8, 0u8, 0u8],
        n % 0x100_0000 == 0 ==> le32_bytes(n) == seq![0u8, 0u8, 0u8, (n / 0x100_0000) as u8],
        le16(Seq::new((at + 2) as nat, |i: int| if i == at { 1u8 } else { 0u8 }), at) == 1,
        le16(Seq::new((at + 2) as nat, |i: int| if i == at + 1 { 1u8 } else { 0u8 }), at) == 0x100,
{
    assert(n < 0x100 ==> le32_bytes(n) =~= seq![n as u8, 0u8, 0u8, 0u8]);
    assert(n % 0x100_0000 == 0 ==> le32_bytes(n) =~= seq![0u8, 0u8, 0u8, (n / 0x100_0000) as u8]);
}

} // verus!
