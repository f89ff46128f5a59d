//! Text as the system takes and gives it: sixteen-bit units, letters whose case
//! does not matter, and blanks at the ends that do not count.

use vstd::prelude::*;

verus! {

/// A number that a `char` can hold: any code point but the surrogates.
pub open spec fn is_scalar(n: int) -> bool {
    0 <= n <= 0xD7FF || 0xE000 <= n <= 0x10FFFF
}

/// `char::from_u32`: the character with this number, nothing where no character
/// has it.
pub assume_specification[ char::from_u32 ](i: u32) -> (r: Option<char>)
    ensures
        r == (if is_scalar(i as int) {
            Some(i as char)
        } else {
            None::<char>
        }),
;

/// `String::push`: the character goes to the end.
pub assume_specification[ String::push ](s: &mut String, c: char)
    ensures
        final(s)@ == old(s)@.push(c),
;

/// The characters of a text.
pub fn chars_of(s: &str) -> (r: Vec<char>)
    ensures
        r@ == s@,
{
    let mut out: Vec<char> = Vec::new();
    for c in it: s.chars()
        invariant
            out@ == it.seq().take(it.index() as int),
            it.seq() == s@,
    {
        out.push(c);
    }
    out
}

/// The text with these characters.
pub fn text_of(chars: &Vec<char>) -> (r: String)
    ensures
        r@ == chars@,
{
    let mut out: String = String::new();
    let mut i: usize = 0;
    while i < chars.len()
        invariant
            i <= chars.len(),
            out@ == chars@.take(i as int),
        decreases chars.len() - i,
    {
        out.push(chars[i]);
        i = i + 1;
        assert(chars@.take(i as int) =~= chars@.take(i - 1).push(chars@[i - 1]));
    }
    assert(chars@.take(chars@.len() as int) =~= chars@);
    out
}

/// Append a text.
pub fn append(out: &mut Vec<char>, s: &str)
    ensures
        final(out)@ == old(out)@ + s@,
{
    let mut tail = chars_of(s);
    out.append(&mut tail);
}

/// Whether two texts are the same.
pub fn same_text(a: &Vec<char>, b: &Vec<char>) -> (r: bool)
    ensures
        r == (a@ == b@),
{
    if a.len() != b.len() {
        return false;
    }
    let mut i: usize = 0;
    while i < a.len()
        invariant
            i <= a.len(),
            a.len() == b.len(),
            forall|j: int| 0 <= j < i ==> a@[j] == b@[j],
        decreases a.len() - i,
    {
        if a[i] != b[i] {
            return false;
        }
        i = i + 1;
    }
    assert(a@ =~= b@);
    true
}

/// Whether a text is this literal.
pub fn is_text(a: &Vec<char>, b: &str) -> (r: bool)
    ensures
        r == (a@ == b@),
{
    let other = chars_of(b);
    same_text(a, &other)
}

/// A blank: the characters with the Unicode property `White_Space`.
pub open spec fn white(c: char) -> bool {
    let n = c as u32;
    ||| 0x09 <= n <= 0x0D
    ||| n == 0x20
    ||| n == 0x85
    ||| n == 0xA0
    ||| n == 0x1680
    ||| 0x2000 <= n <= 0x200A
    ||| n == 0x2028
    ||| n == 0x2029
    ||| n == 0x202F
    ||| n == 0x205F
    ||| n == 0x3000
}

/// Whether a character is a blank.
pub fn is_white(c: char) -> (r: bool)
    ensures
        r == white(c),
{
    let n: u32 = c as u32;
    (n >= 0x09 && n <= 0x0D) || n == 0x20 || n == 0x85 || n == 0xA0 || n == 0x1680 || (n >= 0x2000
        && n <= 0x200A) || n == 0x2028 || n == 0x2029 || n == 0x202F || n == 0x205F || n == 0x3000
}

/// A text with nothing but blanks.
pub open spec fn blank(s: Seq<char>) -> bool {
    forall|i: int| 0 <= i < s.len() ==> white(#[trigger] s[i])
}

/// Whether a text has nothing but blanks.
pub fn is_blank(s: &Vec<char>) -> (r: bool)
    ensures
        r == blank(s@),
{
    let mut i: usize = 0;
    while i < s.len()
        invariant
            i <= s.len(),
            forall|j: int| 0 <= j < i ==> white(#[trigger] s@[j]),
        decreases s.len() - i,
    {
        if !is_white(s[i]) {
            return false;
        }
        i = i + 1;
    }
    true
}

/// The text without the blanks at its start.
pub open spec fn trim_start(s: Seq<char>) -> Seq<char>
    decreases s.len(),
{
    if s.len() > 0 && white(s.first()) {
        trim_start(s.drop_first())
    } else {
        s
    }
}

/// The text without the blanks at its end.
pub open spec fn trim_end(s: Seq<char>) -> Seq<char>
    decreases s.len(),
{
    if s.len() > 0 && white(s.last()) {
        trim_end(s.drop_last())
    } else {
        s
    }
}

/// The text without the blanks at its ends.
pub open spec fn trimmed(s: Seq<char>) -> Seq<char> {
    trim_end(trim_start(s))
}

/// The text without the blanks at its ends.
pub fn trim(s: &Vec<char>) -> (r: Vec<char>)
    ensures
        r@ == trimmed(s@),
{
    let n: usize = s.len();
    let mut from: usize = 0;
    assert(s@.subrange(0, n as int) =~= s@);
    while from < n && is_white(s[from])
        invariant
            from <= n,
            n == s.len(),
            trim_start(s@) == trim_start(s@.subrange(from as int, n as int)),
        decreases n - from,
    {
        let ghost rest = s@.subrange(from as int, n as int);
        assert(rest.drop_first() =~= s@.subrange(from + 1, n as int));
        from = from + 1;
    }
    let ghost rest = s@.subrange(from as int, n as int);
    assert(trim_start(s@) == rest);
    let mut to: usize = n;
    assert(s@.subrange(from as int, to as int) =~= rest);
    while to > from && is_white(s[to - 1])
        invariant
            from <= to <= n,
            n == s.len(),
            trim_end(rest) == trim_end(s@.subrange(from as int, to as int)),
        decreases to,
    {
        let ghost part = s@.subrange(from as int, to as int);
        assert(part.drop_last() =~= s@.subrange(from as int, to - 1));
        to = to - 1;
    }
    let mut out: Vec<char> = Vec::new();
    let mut i: usize = from;
    while i < to
        invariant
            from <= i <= to <= n,
            n == s.len(),
            out@ =~= s@.subrange(from as int, i as int),
        decreases to - i,
    {
        out.push(s[i]);
        i = i + 1;
    }
    out
}

/// A text without a blank at either end stays as it is.
pub proof fn trim_keeps_solid(s: Seq<char>)
    requires
        s.len() > 0 ==> !white(s.first()) && !white(s.last()),
    ensures
        trimmed(s) == s,
{
}

/// The capital of a letter from a to z; any other character itself.
pub open spec fn upper(c: char) -> char {
    if 'a' <= c <= 'z' {
        ((c as u32) - 32) as char
    } else {
        c
    }
}

/// The capital of a letter from a to z; any other character itself.
pub fn to_upper(c: char) -> (r: char)
    ensures
        r == upper(c),
{
    if c >= 'a' && c <= 'z' {
        ((c as u8) - 32) as char
    } else {
        c
    }
}

/// Two texts that differ in the case of letters from a to z at most.
pub open spec fn same_ignoring_case(a: Seq<char>, b: Seq<char>) -> bool {
    a.len() == b.len() && forall|i: int| 0 <= i < a.len() ==> upper(#[trigger] a[i]) == upper(b[i])
}

/// Whether two texts differ in the case of letters from a to z at most.
pub fn is_same_ignoring_case(a: &Vec<char>, b: &str) -> (r: bool)
    ensures
        r == same_ignoring_case(a@, b@),
{
    let other = chars_of(b);
    if a.len() != other.len() {
        return false;
    }
    let mut i: usize = 0;
    while i < a.len()
        invariant
            i <= a.len(),
            a.len() == other.len(),
            other@ == b@,
            forall|j: int| 0 <= j < i ==> upper(#[trigger] a@[j]) == upper(b@[j]),
        decreases a.len() - i,
    {
        if to_upper(a[i]) != to_upper(other[i]) {
            return false;
        }
        i = i + 1;
    }
    true
}

/// The character for a digit.
pub open spec fn digit_char(d: int) -> char {
    if d < 10 {
        ('0' as int + d) as char
    } else {
        ('A' as int + d - 10) as char
    }
}

fn digit_to_char(d: u32) -> (r: char)
    requires
        d < 16,
    ensures
        r == digit_char(d as int),
{
    if d < 10 {
        (48 + d as u8) as char
    } else {
        (55 + d as u8) as char
    }
}

/// A number in digits to a base, without leading zeros.
pub open spec fn digits(n: nat, base: nat) -> Seq<char>
    decreases n,
{
    if n < base || base < 2 {
        seq![digit_char(n as int)]
    } else {
        proof {
            vstd::arithmetic::div_mod::lemma_div_decreases(n as int, base as int);
        }
        digits(n / base, base).push(digit_char((n % base) as int))
    }
}

/// Append a number in digits.
pub fn append_digits(out: &mut Vec<char>, n: u32, base: u32)
    requires
        2 <= base <= 16,
    ensures
        final(out)@ == old(out)@ + digits(n as nat, base as nat),
    decreases n,
{
    if n < base {
        out.push(digit_to_char(n));
    } else {
        proof {
            vstd::arithmetic::div_mod::lemma_div_decreases(n as int, base as int);
        }
        append_digits(out, n / base, base);
        out.push(digit_to_char(n % base));
    }
    assert(out@ =~= old(out)@ + digits(n as nat, base as nat));
}

/// A signed number in decimal.
pub open spec fn decimal(n: int) -> Seq<char> {
    if n < 0 {
        seq!['-'] + digits((-n) as nat, 10)
    } else {
        digits(n as nat, 10)
    }
}

/// Append a signed number in decimal.
pub fn append_decimal(out: &mut Vec<char>, n: i32)
    ensures
        final(out)@ == old(out)@ + decimal(n as int),
{
    if n < 0 {
        out.push('-');
        append_digits(out, (-(n as i64)) as u32, 10);
    } else {
        append_digits(out, n as u32, 10);
    }
    assert(out@ =~= old(out)@ + decimal(n as int));
}

/// A small letter from a to z has its capital, which is thirty-two before it, and
/// every other character is its own.
pub proof fn capitals_are_thirty_two_before(c: char)
    ensures
        97 <= c as u32 <= 122 ==> upper(c) as u32 == c as u32 - 32,
        (c as u32) < 97 || c as u32 > 122 ==> upper(c) == c,
{
}

/// Two texts are the same but for case exactly where they are as long and have at
/// every place the same character, or one letter from a to z in its two cases.
pub proof fn case_of_letters_does_not_count(a: Seq<char>, b: Seq<char>)
    ensures
        same_ignoring_case(a, b) <==> a.len() == b.len() && forall|i: int|
            0 <= i < a.len() ==> {
                let x = #[trigger] a[i] as int;
                let y = b[i] as int;
                x == y || (x == y + 32 && 65 <= y <= 90) || (y == x + 32 && 65 <= x <= 90)
            },
        same_ignoring_case(a, b) == same_ignoring_case(b, a),
{
    if same_ignoring_case(a, b) {
        assert forall|i: int| 0 <= i < a.len() implies {
            let x = #[trigger] a[i] as int;
            let y = b[i] as int;
            x == y || (x == y + 32 && 65 <= y <= 90) || (y == x + 32 && 65 <= x <= 90)
        } by {
            assert(upper(a[i]) == upper(b[i]));
            capitals_are_thirty_two_before(a[i]);
            capitals_are_thirty_two_before(b[i]);
            assert(a[i] as u32 as char == a[i]);
            assert(b[i] as u32 as char == b[i]);
        }
        assert forall|i: int| 0 <= i < b.len() implies upper(#[trigger] b[i]) == upper(a[i]) by {
            assert(upper(a[i]) == upper(b[i]));
        }
    }
    if same_ignoring_case(b, a) {
        assert forall|i: int| 0 <= i < a.len() implies upper(#[trigger] a[i]) == upper(b[i]) by {
            assert(upper(b[i]) == upper(a[i]));
        }
    }
    if a.len() == b.len() && forall|i: int|
        0 <= i < a.len() ==> {
            let x = #[trigger] a[i] as int;
            let y = b[i] as int;
            x == y || (x == y + 32 && 65 <= y <= 90) || (y == x + 32 && 65 <= x <= 90)
        } {
        assert forall|i: int| 0 <= i < a.len() implies upper(#[trigger] a[i]) == upper(b[i]) by {
            assert(a[i] as u32 as char == a[i]);
            assert(b[i] as u32 as char == b[i]);
        }
    }
}

/// The blanks: tab to carriage return, the space, the next line, and the spaces
/// of other scripts. Letters, digits and signs are none.
pub proof fn blanks_by_their_codes(c: char)
    ensures
        ({
            let n = c as int;
            &&& n == 9 || n == 10 || n == 11 || n == 12 || n == 13 || n == 32 ==> white(c)
            &&& n == 0x85 || n == 0xA0 || n == 0x1680 || n == 0x3000 ==> white(c)
            &&& 0x2000 <= n <= 0x206F ==> (white(c) <==> n <= 0x200A || n == 0x2028 || n == 0x2029
                || n == 0x202F || n == 0x205F)
            &&& n < 9 || 13 < n < 32 || 32 < n < 0x85 || 0x85 < n < 0xA0 || 0xA0 < n < 0x1680
                || 0x1680 < n < 0x2000 || 0x206F < n < 0x3000 || n > 0x3000 ==> !white(c)
        }),
{
}

proof fn start_is_cut(s: Seq<char>) -> (cut: int)
    ensures
        0 <= cut <= s.len(),
        trim_start(s) == s.subrange(cut, s.len() as int),
        forall|i: int| 0 <= i < cut ==> white(#[trigger] s[i]),
        cut < s.len() ==> !white(s[cut]),
    decreases s.len(),
{
    if s.len() > 0 && white(s.first()) {
        let rest = s.drop_first();
        let cut = start_is_cut(rest);
        assert(rest.subrange(cut, rest.len() as int) =~= s.subrange(cut + 1, s.len() as int));
        assert forall|i: int| 0 <= i < cut + 1 implies white(#[trigger] s[i]) by {
            if i > 0 {
                assert(rest[i - 1] == s[i]);
            }
        }
        assert(cut < rest.len() ==> rest[cut] == s[cut + 1]);
        cut + 1
    } else {
        assert(s.subrange(0, s.len() as int) =~= s);
        0
    }
}

proof fn end_is_cut(s: Seq<char>) -> (cut: int)
    ensures
        0 <= cut <= s.len(),
        trim_end(s) == s.subrange(0, cut),
        forall|i: int| cut <= i < s.len() ==> white(#[trigger] s[i]),
        cut > 0 ==> !white(s[cut - 1]),
    decreases s.len(),
{
    if s.len() > 0 && white(s.last()) {
        let rest = s.drop_last();
        let cut = end_is_cut(rest);
        assert(rest.subrange(0, cut) =~= s.subrange(0, cut));
        assert forall|i: int| cut <= i < s.len() implies white(#[trigger] s[i]) by {
            if i < rest.len() {
                assert(rest[i] == s[i]);
            }
        }
        cut
    } else {
        assert(s.subrange(0, s.len() as int) =~= s);
        s.len() as int
    }
}

/// A text without its blanks is what is between the first character that is none
/// and the last: it has none at either end, and only blanks were cut off.
pub proof fn only_blanks_are_cut(s: Seq<char>) -> (ends: (int, int))
    ensures
        0 <= ends.0 <= ends.1 <= s.len(),
        trimmed(s) == s.subrange(ends.0, ends.1),
        forall|i: int| 0 <= i < ends.0 || ends.1 <= i < s.len() ==> white(#[trigger] s[i]),
        ends.0 < ends.1 ==> !white(s[ends.0]) && !white(s[ends.1 - 1]),
{
    let from = start_is_cut(s);
    let rest = trim_start(s);
    let to = end_is_cut(rest);
    assert(rest.subrange(0, to) =~= s.subrange(from, from + to));
    assert forall|i: int| 0 <= i < from || from + to <= i < s.len() implies white(
        #[trigger] s[i],
    ) by {
        if i >= from {
            assert(rest[i - from] == s[i]);
        }
    }
    assert(to > 0 ==> rest[to - 1] == s[from + to - 1]);
    (from, from + to)
}

/// The digits are 0 to 9 and then A to F.
pub proof fn digits_by_their_codes(d: int)
    requires
        0 <= d < 16,
    ensures
        d <= 9 ==> digit_char(d) as int == 48 + d,
        d >= 10 ==> digit_char(d) as int == 55 + d,
{
}

/// What a digit counts.
pub open spec fn digit_value(c: char) -> int {
    if c as int <= 57 {
        c as int - 48
    } else {
        c as int - 55
    }
}

/// A number in digits is read back by counting each digit so many times as the
/// base says for its place; it starts with a zero only where it is zero.
pub proof fn digits_are_read_back(n: nat, base: nat)
    requires
        2 <= base <= 16,
    ensures
        value_of(digits(n, base), base) == n,
        digits(n, base).len() >= 1,
        n > 0 ==> digits(n, base)[0] != '0',
        n == 0 ==> digits(n, base) == seq!['0'],
    decreases n,
{
    let s = digits(n, base);
    if n < base {
        assert(s =~= seq![digit_char(n as int)]);
        assert(s.drop_last() =~= Seq::<char>::empty());
        assert(value_of(s.drop_last(), base) == 0);
        assert(0 * base == 0) by (nonlinear_arith);
        digits_by_their_codes(n as int);
        if n == 0 {
            assert(digit_char(0) == '0');
        }
    } else {
        vstd::arithmetic::div_mod::lemma_div_decreases(n as int, base as int);
        vstd::arithmetic::div_mod::lemma_fundamental_div_mod(n as int, base as int);
        vstd::arithmetic::div_mod::lemma_mod_bound(n as int, base as int);
        assert(n / base > 0) by (nonlinear_arith)
            requires
                n >= base,
                base >= 2,
        ;
        digits_are_read_back(n / base, base);
        let head = digits(n / base, base);
        assert(s.drop_last() =~= head);
        digits_by_their_codes((n % base) as int);
        assert(base * (n / base) == (n / base) * base) by (nonlinear_arith);
        assert(s[0] == head[0]);
    }
}

/// The number that digits count to a base.
pub open spec fn value_of(s: Seq<char>, base: nat) -> int
    decreases s.len(),
{
    if s.len() == 0 {
        0
    } else {
        value_of(s.drop_last(), base) * base + digit_value(s.last())
    }
}

/// A number below zero is written with a minus sign before the digits of its
/// size, any other with its digits alone.
pub proof fn sign_comes_first(n: int)
    ensures
        n < 0 ==> decimal(n).len() >= 2 && decimal(n)[0] == '-' && decimal(n).drop_first() == digits(
            (-n) as nat,
            10,
        ),
        n >= 0 ==> decimal(n) == digits(n as nat, 10),
{
    if n < 0 {
        digits_are_read_back((-n) as nat, 10);
        assert(decimal(n).drop_first() =~= digits((-n) as nat, 10));
    }
}

} // verus!
