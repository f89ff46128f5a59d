//! Small arithmetic shared by the geometry and message code.

use vstd::prelude::*;

verus! {

/// The nearest `i32` to `n`.
pub open spec fn clamp_i32(n: int) -> i32 {
    if n < i32::MIN {
        i32::MIN
    } else if n > i32::MAX {
        i32::MAX
    } else {
        n as i32
    }
}

/// The nearest `i32` to `n`.
pub fn to_i32(n: i64) -> (r: i32)
    ensures
        r == clamp_i32(n as int),
{
    if n < i32::MIN as i64 {
        i32::MIN
    } else if n > i32::MAX as i64 {
        i32::MAX
    } else {
        n as i32
    }
}

/// `a + b`, held at the ends of the range.
pub fn saturating_plus(a: i32, b: i32) -> (r: i32)
    ensures
        r == clamp_i32(a + b),
{
    to_i32(a as i64 + b as i64)
}

/// `a - b`, held at the ends of the range.
pub fn saturating_minus(a: i32, b: i32) -> (r: i32)
    ensures
        r == clamp_i32(a - b),
{
    to_i32(a as i64 - b as i64)
}

/// The larger of two integers.
pub open spec fn larger(a: int, b: int) -> int {
    if a >= b {
        a
    } else {
        b
    }
}

/// The smaller of two integers.
pub open spec fn smaller(a: int, b: int) -> int {
    if a <= b {
        a
    } else {
        b
    }
}

/// The larger of two lengths.
pub fn max_u32(a: u32, b: u32) -> (r: u32)
    ensures
        r == larger(a as int, b as int),
{
    if a >= b {
        a
    } else {
        b
    }
}

/// The smaller of two lengths.
pub fn min_u32(a: u32, b: u32) -> (r: u32)
    ensures
        r == smaller(a as int, b as int),
{
    if a <= b {
        a
    } else {
        b
    }
}

/// The larger of two coordinates.
pub fn max_i32(a: i32, b: i32) -> (r: i32)
    ensures
        r == larger(a as int, b as int),
{
    if a >= b {
        a
    } else {
        b
    }
}

/// Division that drops the fraction, on either side of zero.
pub open spec fn toward_zero(n: int, d: int) -> int
    recommends
        d > 0,
{
    if n >= 0 {
        n / d
    } else {
        -((-n) / d)
    }
}

/// A length as a window coordinate: what does not fit is held at the top.
pub open spec fn length_as_coordinate(n: u32) -> i32 {
    clamp_i32(n as int)
}

/// A length as a window coordinate: what does not fit is held at the top.
pub fn as_coordinate(n: u32) -> (r: i32)
    ensures
        r == length_as_coordinate(n),
{
    to_i32(n as i64)
}

/// The horizontal coordinate that a message packs into its low word.
pub open spec fn low_word(lparam: isize) -> i32 {
    (((lparam as u32) as u16) as i16) as i32
}

/// The vertical coordinate that a message packs into its second word.
pub open spec fn high_word(lparam: isize) -> i32 {
    ((((lparam as u32) >> 16u32) as u16) as i16) as i32
}

/// Both coordinates that a mouse message packs into its long parameter; each
/// is a signed word, so points left of and above the origin keep their sign.
pub fn low_words(lparam: isize) -> (r: (i32, i32))
    ensures
        r.0 == low_word(lparam),
        r.1 == high_word(lparam),
        -0x8000 <= r.0 <= 0x7fff,
        -0x8000 <= r.1 <= 0x7fff,
{
    let value: u32 = lparam as u32;
    (((value as u16) as i16) as i32, (((value >> 16u32) as u16) as i16) as i32)
}

/// A positive signed reading of a length is the length itself.
pub proof fn signed_length(w: u32)
    ensures
        (w as i32) > 0 ==> w <= i32::MAX && (w as i32) == w,
        w <= i32::MAX ==> (w as i32) == w,
        w > i32::MAX ==> (w as i32) < 0,
{
    assert((w as i32) > 0i32 ==> w <= 0x7fff_ffffu32) by (bit_vector);
    assert(w > 0x7fff_ffffu32 ==> (w as i32) < 0i32) by (bit_vector);
}

/// The two coordinates of a message are its two low words, each between -0x8000
/// and 0x7FFF: what is packed comes out again, points left of and above the
/// origin with their sign, whatever lies above the two words.
pub proof fn words_are_unpacked(lparam: isize)
    ensures
        -0x8000 <= low_word(lparam) < 0x8000,
        (lparam - low_word(lparam)) % 0x1_0000 == 0,
        -0x8000 <= high_word(lparam) < 0x8000,
        (lparam as int / 0x1_0000 - high_word(lparam)) % 0x1_0000 == 0,
{
    let p: i64 = lparam as i64;
    let value: u32 = lparam as u32;
    let above: i64 = p >> 32i64;
    assert(above * 0x1_0000_0000i64 + (p as u32) == p) by (bit_vector)
        requires
            above == p >> 32i64,
    ;
    let second: u16 = (value >> 16u32) as u16;
    let first: u16 = value as u16;
    assert(value == second * 0x1_0000u32 + first) by (bit_vector)
        requires
            second == (value >> 16u32) as u16,
            first == value as u16,
    ;
    signed_word(first);
    signed_word(second);
}

/// A point packed into a message, the first coordinate in the low word and the
/// second in the word above it, is the point that is read.
pub proof fn packed_point_is_read(lparam: isize, x: int, y: int)
    requires
        -0x8000 <= x < 0x8000,
        -0x8000 <= y < 0x8000,
        (lparam - x) % 0x1_0000 == 0,
        (lparam as int / 0x1_0000 - y) % 0x1_0000 == 0,
    ensures
        low_word(lparam) == x,
        high_word(lparam) == y,
{
    words_are_unpacked(lparam);
    same_word(lparam as int, low_word(lparam) as int, x);
    same_word(lparam as int / 0x1_0000, high_word(lparam) as int, y);
}

proof fn same_word(n: int, a: int, b: int)
    requires
        -0x8000 <= a < 0x8000,
        -0x8000 <= b < 0x8000,
        (n - a) % 0x1_0000 == 0,
        (n - b) % 0x1_0000 == 0,
    ensures
        a == b,
{
    let i = (n - a) / 0x1_0000;
    let j = (n - b) / 0x1_0000;
    assert(a - b == 0x1_0000 * (j - i));
}

/// A word read with a sign is itself below 0x8000, and from there on counts down
/// from zero.
pub proof fn signed_word(w: u16)
    ensures
        (w as i16) == (if w < 0x8000 {
            w as int
        } else {
            w - 0x1_0000
        }),
{
    assert(w < 0x8000u16 ==> (w as i16) == w) by (bit_vector);
    assert(w >= 0x8000u16 ==> (w as i16) + 0x1_0000 == w) by (bit_vector);
}

/// Holding a number to the range of coordinates gives the coordinate nearest to
/// it: no other is as near, and one that fits is kept.
pub proof fn held_number_is_nearest(n: int, other: i32)
    ensures
        other != clamp_i32(n) ==> (if clamp_i32(n) >= n {
            clamp_i32(n) - n
        } else {
            n - clamp_i32(n)
        }) < (if other >= n {
            other - n
        } else {
            n - other
        }),
        other == n ==> clamp_i32(n) == other,
{
}

/// The larger and the smaller of two numbers are the two numbers, in order.
pub proof fn larger_and_smaller_are_the_two(a: int, b: int)
    ensures
        larger(a, b) >= smaller(a, b),
        (larger(a, b) == a && smaller(a, b) == b) || (larger(a, b) == b && smaller(a, b) == a),
{
}

/// Dropping the fraction leaves less than one of the divisor over, on the side
/// of zero that the number is on.
pub proof fn dropped_fraction_is_small(n: int, d: int)
    requires
        d > 0,
    ensures
        n >= 0 ==> 0 <= n - d * toward_zero(n, d) < d,
        n <= 0 ==> 0 <= d * toward_zero(n, d) - n < d,
{
    let q = toward_zero(n, d);
    let size = if n >= 0 {
        n
    } else {
        -n
    };
    vstd::arithmetic::div_mod::lemma_fundamental_div_mod(size, d);
    assert(d * (-(size / d)) == -(d * (size / d))) by (nonlinear_arith);
}

/// The low word of a parameter is what is left of it beyond the multiples of
/// 0x10000.
pub proof fn low_word_by_remainder(n: isize)
    ensures
        (n & 0xFFFF) as u32 == n as int % 0x1_0000,
        n as u32 & 0xFFFF == n as int % 0x1_0000,
{
    let low: isize = n & 0xFFFF;
    let above: isize = n >> 16usize;
    assert(above * 0x1_0000isize + low == n && 0 <= low <= 0xFFFF) by (bit_vector)
        requires
            low == n & 0xFFFF,
            above == n >> 16usize,
    ;
    vstd::arithmetic::div_mod::lemma_fundamental_div_mod_converse(
        n as int,
        0x1_0000,
        above as int,
        low as int,
    );
    assert((n as u32) & 0xFFFFu32 == low as u32) by (bit_vector)
        requires
            low == n & 0xFFFF,
    ;
}

/// A bit of a parameter by its place value.
pub proof fn bits_by_place(n: isize, w: usize)
    ensures
        n & 0x4000_0000 == 0 <==> n as int / 0x4000_0000 % 2 == 0,
        w as u32 & 4 != 0 <==> w / 4 % 2 == 1,
        w as u32 & 8 != 0 <==> w / 8 % 2 == 1,
        (w >> 16usize) & 0xFFFF == w / 0x1_0000 % 0x1_0000,
        w & 0xFFFF == w % 0x1_0000,
{
    assert(((w as u32) & 4u32 != 0u32) == ((w / 4) % 2 == 1)) by (bit_vector);
    assert(((w as u32) & 8u32 != 0u32) == ((w / 8) % 2 == 1)) by (bit_vector);
    assert((w >> 16usize) & 0xFFFF == (w / 0x1_0000) % 0x1_0000) by (bit_vector);
    assert(w & 0xFFFF == w % 0x1_0000) by (bit_vector);
    let low: isize = n & 0x3FFF_FFFF;
    let above: isize = n >> 30usize;
    let odd: isize = above & 1;
    let half: isize = above >> 1usize;
    assert(above * 0x4000_0000isize + low == n && 0 <= low <= 0x3FFF_FFFF && half * 2isize + odd
        == above && 0 <= odd <= 1 && (odd == 0) == (n & 0x4000_0000 == 0)) by (bit_vector)
        requires
            low == n & 0x3FFF_FFFF,
            above == n >> 30usize,
            odd == above & 1,
            half == above >> 1usize,
    ;
    vstd::arithmetic::div_mod::lemma_fundamental_div_mod_converse(
        n as int,
        0x4000_0000,
        above as int,
        low as int,
    );
}

/// What is left of a parameter in thirty-two and in sixteen bits is what is left of
/// it beyond the multiples of 0x100000000 and of 0x10000.
pub proof fn low_bits_by_remainder(w: usize)
    ensures
        w as u32 == w as int % 0x1_0000_0000,
        w as u16 == w as int % 0x1_0000,
{
    let p: u64 = w as u64;
    assert((p as u32) == p % 0x1_0000_0000u64 && (p as u16) == p % 0x1_0000u64) by (bit_vector);
}

} // verus!
