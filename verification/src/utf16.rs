//! Text in sixteen-bit units.

use vstd::prelude::*;

use crate::text::{chars_of, is_scalar};

verus! {

/// The units of one character: itself, or a surrogate pair for one beyond the
/// first plane.
pub open spec fn units_of_char(c: char) -> Seq<u16> {
    let n = c as int;
    if n < 0x1_0000 {
        seq![n as u16]
    } else {
        seq![(0xD800 + (n - 0x1_0000) / 0x400) as u16, (0xDC00 + (n - 0x1_0000) % 0x400) as u16]
    }
}

/// The units of a text.
pub open spec fn encoded(s: Seq<char>) -> Seq<u16>
    decreases s.len(),
{
    if s.len() == 0 {
        seq![]
    } else {
        encoded(s.drop_last()) + units_of_char(s.last())
    }
}

/// The units of a text with a zero at the end, as the system takes it.
pub open spec fn encoded_z(s: Seq<char>) -> Seq<u16> {
    encoded(s).push(0)
}

fn push_units(out: &mut Vec<u16>, c: char)
    ensures
        final(out)@ == old(out)@ + units_of_char(c),
{
    let n: u32 = c as u32;
    if n < 0x1_0000 {
        out.push(n as u16);
    } else {
        out.push((0xD800 + (n - 0x1_0000) / 0x400) as u16);
        out.push((0xDC00 + (n - 0x1_0000) % 0x400) as u16);
    }
    assert(out@ =~= old(out)@ + units_of_char(c));
}

/// The units of a text.
pub fn utf16(text: &str) -> (r: Vec<u16>)
    ensures
        r@ == encoded(text@),
{
    let chars = chars_of(text);
    let mut out: Vec<u16> = Vec::new();
    let mut i: usize = 0;
    assert(chars@.take(0) =~= Seq::<char>::empty());
    while i < chars.len()
        invariant
            i <= chars.len(),
            out@ == encoded(chars@.take(i as int)),
        decreases chars.len() - i,
    {
        push_units(&mut out, chars[i]);
        i = i + 1;
        let ghost head = chars@.take(i as int);
        assert(head.drop_last() =~= chars@.take(i - 1));
        assert(head.last() == chars@[i - 1]);
    }
    assert(chars@.take(chars@.len() as int) =~= chars@);
    out
}

/// The units of a text with a zero at the end, as the system takes it.
pub fn to_wide(text: &str) -> (r: Vec<u16>)
    ensures
        r@ == encoded_z(text@),
{
    let mut out = utf16(text);
    out.push(0);
    out
}

/// A unit that stands for half a character.
pub open spec fn surrogate(u: u16) -> bool {
    0xD800 <= u <= 0xDFFF
}

/// The first half of a pair.
pub open spec fn leading(u: u16) -> bool {
    0xD800 <= u <= 0xDBFF
}

/// The second half of a pair.
pub open spec fn trailing(u: u16) -> bool {
    0xDC00 <= u <= 0xDFFF
}

/// The character that a pair stands for.
pub open spec fn pair(hi: u16, lo: u16) -> char {
    (0x1_0000 + (hi - 0xD800) * 0x400 + (lo - 0xDC00)) as char
}

/// The text of a sequence of units. Half a pair that stands alone becomes the
/// replacement character.
pub open spec fn decoded(units: Seq<u16>) -> Seq<char>
    decreases units.len(),
{
    if units.len() == 0 {
        seq![]
    } else if units.len() >= 2 && leading(units[0]) && trailing(units[1]) {
        seq![pair(units[0], units[1])] + decoded(units.subrange(2, units.len() as int))
    } else if surrogate(units[0]) {
        seq!['\u{FFFD}'] + decoded(units.subrange(1, units.len() as int))
    } else {
        seq![units[0] as char] + decoded(units.subrange(1, units.len() as int))
    }
}

/// A character by its number, the replacement character where there is none.
fn char_or_replacement(n: u32) -> (r: char)
    ensures
        r == (if is_scalar(n as int) {
            n as char
        } else {
            '\u{FFFD}'
        }),
{
    match char::from_u32(n) {
        Some(c) => c,
        None => '\u{FFFD}',
    }
}

/// The text of a sequence of units. Half a pair that stands alone becomes the
/// replacement character.
pub fn from_utf16_lossy(units: &[u16]) -> (r: String)
    ensures
        r@ == decoded(units@),
{
    let n: usize = units.len();
    let mut out: String = String::new();
    let mut i: usize = 0;
    assert(units@.subrange(0, n as int) =~= units@);
    assert(out@ + decoded(units@) =~= decoded(units@));
    while i < n
        invariant
            i <= n,
            n == units.len(),
            out@ + decoded(units@.subrange(i as int, n as int)) == decoded(units@),
        decreases n - i,
    {
        let ghost rest = units@.subrange(i as int, n as int);
        let ghost before = out@;
        let u: u16 = units[i];
        if u >= 0xD800 && u <= 0xDBFF && i + 1 < n && units[i + 1] >= 0xDC00 && units[i + 1]
            <= 0xDFFF {
            let lo: u16 = units[i + 1];
            let code: u32 = 0x1_0000 + (u as u32 - 0xD800) * 0x400 + (lo as u32 - 0xDC00);
            let c = char_or_replacement(code);
            out.push(c);
            proof {
                assert(c == pair(u, lo));
                assert(rest.subrange(2, rest.len() as int) =~= units@.subrange(i + 2, n as int));
                assert(before + decoded(rest) =~= before.push(c) + decoded(
                    units@.subrange(i + 2, n as int),
                ));
            }
            i = i + 2;
        } else {
            let c = char_or_replacement(u as u32);
            out.push(c);
            proof {
                assert(rest.subrange(1, rest.len() as int) =~= units@.subrange(i + 1, n as int));
                assert(before + decoded(rest) =~= before.push(c) + decoded(
                    units@.subrange(i + 1, n as int),
                ));
            }
            i = i + 1;
        }
    }
    assert(units@.subrange(n as int, n as int) =~= Seq::<u16>::empty());
    assert(out@ + Seq::<char>::empty() =~= out@);
    out
}

/// Every half of a pair has its other half.
pub open spec fn well_paired(units: Seq<u16>) -> bool
    decreases units.len(),
{
    if units.len() == 0 {
        true
    } else if units.len() >= 2 && leading(units[0]) && trailing(units[1]) {
        well_paired(units.subrange(2, units.len() as int))
    } else if surrogate(units[0]) {
        false
    } else {
        well_paired(units.subrange(1, units.len() as int))
    }
}

fn is_well_paired(units: &[u16]) -> (r: bool)
    ensures
        r == well_paired(units@),
{
    let n: usize = units.len();
    let mut i: usize = 0;
    assert(units@.subrange(0, n as int) =~= units@);
    while i < n
        invariant
            i <= n,
            n == units.len(),
            well_paired(units@.subrange(i as int, n as int)) == well_paired(units@),
        decreases n - i,
    {
        let ghost rest = units@.subrange(i as int, n as int);
        let u: u16 = units[i];
        if u >= 0xD800 && u <= 0xDBFF && i + 1 < n && units[i + 1] >= 0xDC00 && units[i + 1]
            <= 0xDFFF {
            assert(rest.subrange(2, rest.len() as int) =~= units@.subrange(i + 2, n as int));
            i = i + 2;
        } else if u >= 0xD800 && u <= 0xDFFF {
            return false;
        } else {
            assert(rest.subrange(1, rest.len() as int) =~= units@.subrange(i + 1, n as int));
            i = i + 1;
        }
    }
    true
}

/// The text of a sequence of units; none where half a pair stands alone.
pub fn from_utf16(units: &[u16]) -> (r: Option<String>)
    ensures
        match r {
            Some(text) => well_paired(units@) && text@ == decoded(units@),
            None => !well_paired(units@),
        },
{
    if is_well_paired(units) {
        Some(from_utf16_lossy(units))
    } else {
        None
    }
}

/// The units before the first zero.
pub open spec fn before_zero(units: Seq<u16>) -> Seq<u16>
    decreases units.len(),
{
    if units.len() == 0 || units[0] == 0 {
        seq![]
    } else {
        seq![units[0]] + before_zero(units.subrange(1, units.len() as int))
    }
}

proof fn before_zero_is_prefix(units: Seq<u16>, len: int)
    requires
        0 <= len <= units.len(),
        len < units.len() ==> units[len] == 0,
        forall|j: int| 0 <= j < len ==> units[j] != 0,
    ensures
        before_zero(units) == units.take(len),
    decreases len,
{
    if len == 0 {
        assert(units.take(0) =~= Seq::<u16>::empty());
    } else {
        let rest = units.subrange(1, units.len() as int);
        before_zero_is_prefix(rest, len - 1);
        assert(units.take(len) =~= seq![units[0]] + rest.take(len - 1));
    }
}

/// How many units come before the first zero.
pub fn length_before_zero(units: &[u16]) -> (r: usize)
    ensures
        r <= units.len(),
        units@.take(r as int) == before_zero(units@),
        r < units.len() ==> units@[r as int] == 0,
        forall|j: int| 0 <= j < r ==> units@[j] != 0,
{
    let mut len: usize = 0;
    while len < units.len() && units[len] != 0
        invariant
            len <= units.len(),
            forall|j: int| 0 <= j < len ==> units@[j] != 0,
        decreases units.len() - len,
    {
        len = len + 1;
    }
    proof {
        before_zero_is_prefix(units@, len as int);
    }
    len
}

/// The text of a buffer that a zero ends; a buffer without one is text to its
/// end.
pub fn utf16z_to_string(units: &[u16]) -> (r: String)
    ensures
        r@ == decoded(before_zero(units@)),
{
    let len: usize = length_before_zero(units);
    let (head, _tail) = units.split_at(len);
    assert(head@ =~= units@.take(len as int));
    from_utf16_lossy(head)
}

proof fn decoded_of_char_and_rest(c: char, rest: Seq<u16>)
    ensures
        decoded(units_of_char(c) + rest) == seq![c] + decoded(rest),
{
    let n = c as int;
    let all = units_of_char(c) + rest;
    if n < 0x1_0000 {
        assert(all.subrange(1, all.len() as int) =~= rest);
        assert(!surrogate(all[0]));
        assert(all[0] as char == c);
    } else {
        assert(all.subrange(2, all.len() as int) =~= rest);
        let q = (n - 0x1_0000) / 0x400;
        let r = (n - 0x1_0000) % 0x400;
        assert(0 <= q < 0x400 && 0 <= r < 0x400 && n - 0x1_0000 == q * 0x400 + r);
        assert(pair(all[0], all[1]) == c);
    }
}

proof fn decoded_of_encoded_and_rest(s: Seq<char>, rest: Seq<u16>)
    ensures
        decoded(encoded(s) + rest) == s + decoded(rest),
    decreases s.len(),
{
    if s.len() == 0 {
        assert(encoded(s) + rest =~= rest);
        assert(s + decoded(rest) =~= decoded(rest));
    } else {
        let tail = units_of_char(s.last()) + rest;
        decoded_of_encoded_and_rest(s.drop_last(), tail);
        decoded_of_char_and_rest(s.last(), rest);
        assert(encoded(s) + rest =~= encoded(s.drop_last()) + tail);
        assert(s.drop_last() + (seq![s.last()] + decoded(rest)) =~= s + decoded(rest));
    }
}

/// Decoding undoes encoding.
pub proof fn decode_undoes_encode(s: Seq<char>)
    ensures
        decoded(encoded(s)) == s,
{
    decoded_of_encoded_and_rest(s, seq![]);
    assert(encoded(s) + Seq::<u16>::empty() =~= encoded(s));
    assert(s + Seq::<char>::empty() =~= s);
}

proof fn units_are_not_zero(c: char)
    requires
        c != '\0',
    ensures
        forall|j: int| 0 <= j < units_of_char(c).len() ==> units_of_char(c)[j] != 0,
{
}

proof fn encoded_has_no_zero(s: Seq<char>)
    requires
        forall|i: int| 0 <= i < s.len() ==> s[i] != '\0',
    ensures
        forall|j: int| 0 <= j < encoded(s).len() ==> encoded(s)[j] != 0,
    decreases s.len(),
{
    if s.len() > 0 {
        encoded_has_no_zero(s.drop_last());
        let head = encoded(s.drop_last());
        let last = units_of_char(s.last());
        assert(s[s.len() - 1] != '\0');
        units_are_not_zero(s.last());
        assert forall|j: int| 0 <= j < encoded(s).len() implies encoded(s)[j] != 0 by {
            if j < head.len() {
                assert(encoded(s)[j] == head[j]);
            } else {
                assert(encoded(s)[j] == last[j - head.len()]);
            }
        }
    }
}

/// What is handed over with a zero at the end is read back whole, whatever the
/// buffer holds after that zero. Only a text with a zero inside is cut there.
pub proof fn wide_text_is_read_back(s: Seq<char>, junk: Seq<u16>)
    requires
        forall|i: int| 0 <= i < s.len() ==> s[i] != '\0',
    ensures
        decoded(before_zero(encoded_z(s) + junk)) == s,
{
    encoded_has_no_zero(s);
    let all = encoded_z(s) + junk;
    before_zero_is_prefix(all, encoded(s).len() as int);
    assert(all.take(encoded(s).len() as int) =~= encoded(s));
    decode_undoes_encode(s);
}

/// A character below 0x10000 is one unit, its own number. Any other is two, the
/// first from 0xD800 to 0xDBFF and the second from 0xDC00 to 0xDFFF: above
/// 0x10000 the first counts 0x400 and the second one.
pub proof fn units_by_number(c: char)
    ensures
        ({
            let n = c as int;
            let u = units_of_char(c);
            &&& n < 0x1_0000 ==> u.len() == 1 && u[0] == n
            &&& n >= 0x1_0000 ==> u.len() == 2 && 0xD800 <= u[0] < 0xDC00 && 0xDC00 <= u[1] < 0xE000
                && 0x1_0000 + 0x400 * (u[0] - 0xD800) + (u[1] - 0xDC00) == n
        }),
{
}

/// A text in units is the units of its characters, one after the other, and then
/// a zero where one ends it.
pub proof fn text_is_its_characters_in_units(s: Seq<char>, c: char)
    ensures
        encoded(s.push(c)) == encoded(s) + units_of_char(c),
        encoded(Seq::empty()) == Seq::<u16>::empty(),
        encoded_z(s).len() == encoded(s).len() + 1,
        encoded_z(s).drop_last() == encoded(s),
        encoded_z(s).last() == 0,
{
    assert(s.push(c).drop_last() =~= s);
    assert(encoded_z(s).drop_last() =~= encoded(s));
}

/// Units are read from the front: one that is no half of a pair is its own
/// character, a first half and a second one behind it are one character, and any
/// other half is the replacement character 0xFFFD, without which the text would
/// have been good.
pub proof fn units_are_read_from_the_front(u: u16, v: u16, rest: Seq<u16>)
    ensures
        u < 0xD800 || u >= 0xE000 ==> decoded(seq![u] + rest) == seq![u as char] + decoded(rest)
            && well_paired(seq![u] + rest) == well_paired(rest),
        0xD800 <= u < 0xDC00 && 0xDC00 <= v < 0xE000 ==> decoded(seq![u, v] + rest) == seq![
            (0x1_0000 + 0x400 * (u - 0xD800) + (v - 0xDC00)) as char,
        ] + decoded(rest) && well_paired(seq![u, v] + rest) == well_paired(rest),
        0xDC00 <= u < 0xE000 || (0xD800 <= u < 0xDC00 && (rest.len() == 0 || rest[0] < 0xDC00
            || rest[0] >= 0xE000)) ==> decoded(seq![u] + rest) == seq!['\u{FFFD}'] + decoded(rest)
            && !well_paired(seq![u] + rest),
        decoded(Seq::empty()) == Seq::<char>::empty(),
        well_paired(Seq::empty()),
{
    let one = seq![u] + rest;
    let two = seq![u, v] + rest;
    assert(one.subrange(1, one.len() as int) =~= rest);
    assert(two.subrange(2, two.len() as int) =~= rest);
    assert(one[0] == u && two[0] == u && two[1] == v);
    assert(rest.len() > 0 ==> one[1] == rest[0]);
}

/// What comes before the first zero has none, and ends at one or with the units.
pub proof fn first_zero_ends_the_text(units: Seq<u16>)
    ensures
        ({
            let n = before_zero(units).len();
            &&& n <= units.len()
            &&& before_zero(units) == units.take(n as int)
            &&& forall|i: int| 0 <= i < n ==> #[trigger] units[i] != 0
            &&& n < units.len() ==> units[n as int] == 0
        }),
    decreases units.len(),
{
    if units.len() == 0 || units[0] == 0 {
        assert(units.take(0) =~= Seq::<u16>::empty());
    } else {
        let rest = units.subrange(1, units.len() as int);
        first_zero_ends_the_text(rest);
        let n = before_zero(units).len();
        assert(units.take(n as int) =~= seq![units[0]] + rest.take(n - 1));
        assert forall|i: int| 0 <= i < n implies #[trigger] units[i] != 0 by {
            if i > 0 {
                assert(rest[i - 1] == units[i]);
            }
        }
        if n < units.len() {
            assert(rest[n - 1] == units[n as int]);
        }
    }
}

} // verus!
