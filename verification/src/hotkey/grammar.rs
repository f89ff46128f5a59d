//! The text of a shortcut, such as `Ctrl+Alt+S`, and back.

use vstd::prelude::*;

use crate::error::Win32Error;
use crate::hotkey::HotkeyCombo;
use crate::text::{
    chars_of, is_same_ignoring_case, same_ignoring_case, to_upper, trim, trimmed, upper,
};

verus! {

/// The parts of a text between its plus signs.
pub open spec fn parts(s: Seq<char>) -> Seq<Seq<char>>
    decreases s.len(),
{
    if s.len() == 0 {
        seq![Seq::<char>::empty()]
    } else {
        let before = parts(s.drop_last());
        if s.last() == '+' {
            before.push(Seq::<char>::empty())
        } else {
            before.drop_last().push(before.last().push(s.last()))
        }
    }
}

proof fn parts_are_some(s: Seq<char>)
    ensures
        parts(s).len() >= 1,
    decreases s.len(),
{
    if s.len() > 0 {
        parts_are_some(s.drop_last());
    }
}

fn split_parts(s: &Vec<char>) -> (r: Vec<Vec<char>>)
    ensures
        r@.len() == parts(s@).len(),
        forall|i: int| 0 <= i < r@.len() ==> (#[trigger] r@[i])@ == parts(s@)[i],
{
    let mut out: Vec<Vec<char>> = Vec::new();
    let mut current: Vec<char> = Vec::new();
    let mut i: usize = 0;
    assert(s@.take(0) =~= Seq::<char>::empty());
    while i < s.len()
        invariant
            i <= s.len(),
            parts(s@.take(i as int)).len() == out@.len() + 1,
            forall|j: int|
                0 <= j < out@.len() ==> (#[trigger] out@[j])@ == parts(s@.take(i as int))[j],
            current@ == parts(s@.take(i as int)).last(),
        decreases s.len() - i,
    {
        let c = s[i];
        let ghost before = parts(s@.take(i as int));
        proof {
            let head = s@.take(i + 1);
            assert(head.drop_last() =~= s@.take(i as int));
            assert(head.last() == c);
        }
        if c == '+' {
            out.push(current);
            current = Vec::new();
        } else {
            current.push(c);
        }
        i = i + 1;
    }
    out.push(current);
    assert(s@.take(s@.len() as int) =~= s@);
    out
}

/// A digit from 0 to 9.
pub open spec fn digit(c: char) -> bool {
    '0' <= c <= '9'
}

/// The number that digits spell.
pub open spec fn number(s: Seq<char>) -> int
    decreases s.len(),
{
    if s.len() == 0 {
        0
    } else {
        number(s.drop_last()) * 10 + (s.last() as int - '0' as int)
    }
}

/// Digits and nothing else, at least one.
pub open spec fn all_digits(s: Seq<char>) -> bool {
    s.len() > 0 && forall|i: int| 0 <= i < s.len() ==> digit(#[trigger] s[i])
}

/// The number that a text spells: digits, behind a plus sign or not.
pub open spec fn spelled(s: Seq<char>) -> Option<int> {
    let digits = if s.len() > 0 && s[0] == '+' {
        s.subrange(1, s.len() as int)
    } else {
        s
    };
    if all_digits(digits) {
        Some(number(digits))
    } else {
        None
    }
}

/// What a text from index `from` on spells, as far as it matters: numbers above
/// 24 are all given as 25.
fn small_number(s: &Vec<char>, from: usize) -> (r: Option<u32>)
    requires
        from <= s.len(),
    ensures
        match spelled(s@.subrange(from as int, s@.len() as int)) {
            Some(n) => 0 <= n && r == Some(
                if n <= 24 {
                    n as u32
                } else {
                    25
                },
            ),
            None => r is None,
        },
{
    let ghost tail = s@.subrange(from as int, s@.len() as int);
    let start: usize = if from < s.len() && s[from] == '+' {
        from + 1
    } else {
        from
    };
    let ghost digits = s@.subrange(start as int, s@.len() as int);
    assert(start == from + 1 ==> tail.subrange(1, tail.len() as int) =~= digits);
    if start == s.len() {
        return None;
    }
    let mut n: u32 = 0;
    let mut i: usize = start;
    assert(digits.take(0) =~= Seq::<char>::empty());
    while i < s.len()
        invariant
            start <= i <= s.len(),
            start < s.len(),
            from <= s.len(),
            tail == s@.subrange(from as int, s@.len() as int),
            digits == s@.subrange(start as int, s@.len() as int),
            forall|j: int| 0 <= j < i - start ==> digit(#[trigger] digits[j]),
            number(digits.take(i - start)) >= 0,
            n == (if number(digits.take(i - start)) <= 24 {
                number(digits.take(i - start))
            } else {
                25
            }),
            spelled(tail) == (if all_digits(digits) {
                Some(number(digits))
            } else {
                None::<int>
            }),
        decreases s.len() - i,
    {
        let c = s[i];
        assert(digits[i - start] == c);
        if !(c >= '0' && c <= '9') {
            assert(!digit(digits[i - start]));
            return None;
        }
        let d: u32 = c as u32 - '0' as u32;
        proof {
            let head = digits.take(i + 1 - start);
            assert(head.drop_last() =~= digits.take(i - start));
            assert(head.last() == c);
        }
        n = n * 10 + d;
        if n > 24 {
            n = 25;
        }
        i = i + 1;
    }
    assert(digits.take(s@.len() - start) =~= digits);
    Some(n)
}

/// A letter from a to z, either case, or a digit.
pub open spec fn alphanumeric(c: char) -> bool {
    'a' <= c <= 'z' || 'A' <= c <= 'Z' || '0' <= c <= '9'
}

/// The key that a text names: `F1` to `F24`, or a single letter or digit.
pub open spec fn key_code(t: Seq<char>) -> Option<u32> {
    let n = spelled(t.subrange(1, t.len() as int));
    if t.len() >= 2 && upper(t[0]) == 'F' && n is Some && 1 <= n->0 <= 24 {
        Some((0x70 + n->0 - 1) as u32)
    } else if t.len() == 1 && alphanumeric(t[0]) {
        Some(upper(t[0]) as u32)
    } else {
        None
    }
}

/// The key that a text names: `F1` to `F24`, or a single letter or digit.
pub fn parse_key(token: &Vec<char>) -> (r: Option<u32>)
    ensures
        r == key_code(token@),
{
    if token.len() >= 2 && to_upper(token[0]) == 'F' {
        if let Some(n) = small_number(token, 1) {
            if n >= 1 && n <= 24 {
                return Some(0x70 + n - 1);
            }
        }
    }
    if token.len() == 1 {
        let c = token[0];
        if (c >= 'a' && c <= 'z') || (c >= 'A' && c <= 'Z') || (c >= '0' && c <= '9') {
            return Some(to_upper(c) as u32);
        }
    }
    None
}

/// What a part of a shortcut's text stands for.
pub enum Word {
    Ctrl,
    Alt,
    Shift,
    Win,
    Key(u32),
    Unknown,
}

/// What a part of a shortcut's text stands for. Case and blanks around it do
/// not matter.
pub open spec fn word(part: Seq<char>) -> Word {
    let t = trimmed(part);
    if same_ignoring_case(t, "ctrl"@) || same_ignoring_case(t, "control"@) {
        Word::Ctrl
    } else if same_ignoring_case(t, "alt"@) {
        Word::Alt
    } else if same_ignoring_case(t, "shift"@) {
        Word::Shift
    } else if same_ignoring_case(t, "win"@) {
        Word::Win
    } else {
        match key_code(t) {
            Some(vk) => Word::Key(vk),
            None => Word::Unknown,
        }
    }
}

fn read_word(part: &Vec<char>) -> (r: Word)
    ensures
        r == word(part@),
{
    let t = trim(part);
    if is_same_ignoring_case(&t, "ctrl") || is_same_ignoring_case(&t, "control") {
        Word::Ctrl
    } else if is_same_ignoring_case(&t, "alt") {
        Word::Alt
    } else if is_same_ignoring_case(&t, "shift") {
        Word::Shift
    } else if is_same_ignoring_case(&t, "win") {
        Word::Win
    } else {
        match parse_key(&t) {
            Some(vk) => Word::Key(vk),
            None => Word::Unknown,
        }
    }
}

/// The words of a shortcut's text.
pub open spec fn words(s: Seq<char>) -> Seq<Word> {
    Seq::new(parts(s).len(), |i: int| word(parts(s)[i]))
}

/// No two of these words are this kind of word.
pub open spec fn at_most_one(ws: Seq<Word>, kind: spec_fn(Word) -> bool) -> bool {
    forall|i: int, j: int|
        0 <= i < ws.len() && 0 <= j < ws.len() && kind(#[trigger] ws[i]) && kind(#[trigger] ws[j])
            ==> i == j
}

/// Words that name these modifiers and this key: every word is known, none is
/// said twice, and there is exactly one key.
pub open spec fn words_name(ws: Seq<Word>, c: HotkeyCombo) -> bool {
    &&& !ws.contains(Word::Unknown)
    &&& at_most_one(ws, |w: Word| w is Ctrl)
    &&& at_most_one(ws, |w: Word| w is Alt)
    &&& at_most_one(ws, |w: Word| w is Shift)
    &&& at_most_one(ws, |w: Word| w is Win)
    &&& at_most_one(ws, |w: Word| w is Key)
    &&& c.ctrl == ws.contains(Word::Ctrl)
    &&& c.alt == ws.contains(Word::Alt)
    &&& c.shift == ws.contains(Word::Shift)
    &&& c.win == ws.contains(Word::Win)
    &&& ws.contains(Word::Key(c.vk))
}

/// A text that names a shortcut: its words name it, and it has a modifier. A
/// bare key would take ordinary typing away.
pub open spec fn names(s: Seq<char>, c: HotkeyCombo) -> bool {
    words_name(words(s), c) && (c.ctrl || c.alt || c.shift || c.win)
}

/// The shortcut that a text names.
pub open spec fn parsed(s: Seq<char>) -> Option<HotkeyCombo> {
    if exists|c: HotkeyCombo| names(s, c) {
        Some(choose|c: HotkeyCombo| names(s, c))
    } else {
        None
    }
}

/// A text names one shortcut at most.
pub proof fn names_one(s: Seq<char>, a: HotkeyCombo, b: HotkeyCombo)
    requires
        names(s, a),
        names(s, b),
    ensures
        a == b,
        parsed(s) == Some(a),
{
    let ws = words(s);
    let i = choose|i: int| 0 <= i < ws.len() && ws[i] == Word::Key(a.vk);
    let j = choose|j: int| 0 <= j < ws.len() && ws[j] == Word::Key(b.vk);
    let kind = |w: Word| w is Key;
    assert(kind(ws[i]) && kind(ws[j]));
    let c = choose|c: HotkeyCombo| names(s, c);
    let k = choose|k: int| 0 <= k < ws.len() && ws[k] == Word::Key(c.vk);
    assert(kind(ws[k]));
}

/// One of `Ctrl`, `Alt`, `Shift` and `Win`.
pub open spec fn is_modifier(w: Word) -> bool {
    w is Ctrl || w is Alt || w is Shift || w is Win
}

spec fn seen(ws: Seq<Word>, upto: int, w: Word) -> bool {
    exists|i: int| 0 <= i < upto && #[trigger] ws[i] == w
}

spec fn key_seen(ws: Seq<Word>, upto: int) -> bool {
    exists|i: int| 0 <= i < upto && (#[trigger] ws[i]) is Key
}

/// The words before `upto` have named `c` so far.
spec fn named_so_far(ws: Seq<Word>, upto: int, c: HotkeyCombo, has_key: bool) -> bool {
    &&& forall|i: int| 0 <= i < upto ==> !((#[trigger] ws[i]) is Unknown)
    &&& forall|i: int, j: int|
        0 <= i < upto && 0 <= j < upto && (#[trigger] ws[i]) is Key && (#[trigger] ws[j]) is Key
            ==> i == j
    &&& forall|i: int, j: int|
        0 <= i < upto && 0 <= j < upto && is_modifier(#[trigger] ws[i]) && ws[i]
            == #[trigger] ws[j] ==> i == j
    &&& c.ctrl == seen(ws, upto, Word::Ctrl)
    &&& c.alt == seen(ws, upto, Word::Alt)
    &&& c.shift == seen(ws, upto, Word::Shift)
    &&& c.win == seen(ws, upto, Word::Win)
    &&& has_key == key_seen(ws, upto)
    &&& has_key ==> seen(ws, upto, Word::Key(c.vk))
}

proof fn named_through(ws: Seq<Word>, c: HotkeyCombo)
    requires
        named_so_far(ws, ws.len() as int, c, true),
    ensures
        words_name(ws, c),
{
    let n = ws.len() as int;
    assert(forall|w: Word| seen(ws, n, w) <==> #[trigger] ws.contains(w));
}

/// A word that repeats what was said, or says nothing, leaves the text without
/// a shortcut.
proof fn spoilt(ws: Seq<Word>, at: int, earlier: int, c: HotkeyCombo)
    requires
        0 <= at < ws.len(),
        ws[at] is Unknown || (0 <= earlier < at && (ws[earlier] == ws[at] || (ws[earlier] is Key
            && ws[at] is Key))),
    ensures
        !words_name(ws, c),
{
    if words_name(ws, c) {
        if ws[at] is Unknown {
            assert(ws.contains(Word::Unknown));
        } else {
            let a = ws[at];
            let b = ws[earlier];
            let ctrl = |w: Word| w is Ctrl;
            let alt = |w: Word| w is Alt;
            let shift = |w: Word| w is Shift;
            let win = |w: Word| w is Win;
            let key = |w: Word| w is Key;
            assert(ctrl(a) == ctrl(b) && alt(a) == alt(b) && shift(a) == shift(b) && win(a)
                == win(b) && key(a) == key(b));
        }
    }
}

impl HotkeyCombo {
    /// Read a shortcut's text: modifiers and one key, joined by plus signs, in
    /// any order and case, with or without blanks.
    pub fn parse(s: &str) -> (r: Result<Self, Win32Error>)
        ensures
            match r {
                Ok(combo) => names(s@, combo) && parsed(s@) == Some(combo),
                Err(e) => parsed(s@) is None && (e matches Win32Error::InvalidHotkey(t) && t@
                    == s@),
            },
    {
        let chars = chars_of(s);
        let tokens = split_parts(&chars);
        let ghost ws = words(s@);
        let mut combo = HotkeyCombo { ctrl: false, alt: false, shift: false, win: false, vk: 0 };
        let mut has_key = false;
        let mut i: usize = 0;
        while i < tokens.len()
            invariant
                i <= tokens.len(),
                ws == words(s@),
                ws.len() == tokens@.len(),
                forall|j: int| 0 <= j < tokens@.len() ==> word((#[trigger] tokens@[j])@) == ws[j],
                named_so_far(ws, i as int, combo, has_key),
            decreases tokens.len() - i,
        {
            let w = read_word(&tokens[i]);
            assert(w == ws[i as int]);
            let repeated = match w {
                Word::Ctrl => combo.ctrl,
                Word::Alt => combo.alt,
                Word::Shift => combo.shift,
                Word::Win => combo.win,
                Word::Key(_) => has_key,
                Word::Unknown => true,
            };
            if repeated {
                proof {
                    let earlier = choose|j: int|
                        0 <= j < i && (#[trigger] ws[j] == w || (ws[j] is Key && w is Key));
                    assert forall|c: HotkeyCombo| !names(s@, c) by {
                        spoilt(ws, i as int, earlier, c);
                    }
                }
                return Err(Win32Error::InvalidHotkey(s.to_owned()));
            }
            let ghost before = combo;
            match w {
                Word::Ctrl => combo.ctrl = true,
                Word::Alt => combo.alt = true,
                Word::Shift => combo.shift = true,
                Word::Win => combo.win = true,
                Word::Key(vk) => {
                    combo.vk = vk;
                    has_key = true;
                },
                Word::Unknown => {},
            }
            proof {
                assert forall|x: Word| #[trigger] seen(ws, i + 1, x) == (seen(ws, i as int, x) || x
                    == w) by {
                    if seen(ws, i as int, x) {
                        let k = choose|k: int| 0 <= k < i && #[trigger] ws[k] == x;
                        assert(ws[k] == x);
                    }
                    if x == w {
                        assert(ws[i as int] == x);
                    }
                }
                assert(key_seen(ws, i + 1) == (key_seen(ws, i as int) || w is Key)) by {
                    if w is Key {
                        assert(ws[i as int] is Key);
                    }
                    if key_seen(ws, i as int) {
                        let k = choose|k: int| 0 <= k < i && (#[trigger] ws[k]) is Key;
                        assert(ws[k] is Key);
                    }
                }
            }
            i = i + 1;
        }
        if !has_key {
            proof {
                assert forall|c: HotkeyCombo| !names(s@, c) by {
                    if names(s@, c) {
                        let k = choose|k: int| 0 <= k < ws.len() && ws[k] == Word::Key(c.vk);
                        assert(ws[k] is Key);
                    }
                }
            }
            return Err(Win32Error::InvalidHotkey(s.to_owned()));
        }
        proof {
            named_through(ws, combo);
        }
        if !(combo.ctrl || combo.alt || combo.shift || combo.win) {
            proof {
                assert forall|c: HotkeyCombo| !names(s@, c) by {
                }
            }
            return Err(Win32Error::InvalidHotkey(s.to_owned()));
        }
        proof {
            names_one(s@, combo, combo);
        }
        Ok(combo)
    }
}

proof fn joined_parts(s: Seq<char>, i: int)
    ensures
        parts(s).len() >= 1,
        0 <= i < parts(s).len() ==> forall|k: int|
            0 <= k < parts(s)[i].len() ==> #[trigger] parts(s)[i][k] != '+',
        joined(parts(s)) == s,
    decreases s.len(),
{
    if s.len() == 0 {
        assert(parts(s) =~= seq![Seq::<char>::empty()]);
        assert(parts(s).drop_last() =~= Seq::<Seq<char>>::empty());
        assert(joined(parts(s)) =~= s);
    } else {
        let head = s.drop_last();
        let before = parts(head);
        joined_parts(head, i);
        let all = parts(s);
        if s.last() == '+' {
            assert(all.drop_last() =~= before);
            assert(all.last() =~= Seq::<char>::empty());
            assert(joined(all) =~= joined(before).push('+'));
            assert(s =~= head.push('+'));
            if 0 <= i < before.len() {
                assert(all[i] == before[i]);
            }
        } else {
            joined_parts(head, before.len() - 1);
            assert(all.drop_last() =~= before.drop_last());
            assert(all.last() == before.last().push(s.last()));
            if before.len() == 1 {
                assert(joined(before) =~= before.last());
                assert(joined(all) =~= before.last().push(s.last()));
            } else {
                assert(joined(all) =~= joined(before).push(s.last()));
            }
            assert(s =~= head.push(s.last()));
            if 0 <= i < before.len() - 1 {
                assert(all[i] == before[i]);
            } else if i == before.len() - 1 {
                assert forall|k: int| 0 <= k < all[i].len() implies #[trigger] all[i][k] != '+' by {
                    if k < before[i].len() {
                        assert(all[i][k] == before[i][k]);
                    }
                }
            }
        }
    }
}

/// Texts put together with a plus sign between each two.
pub open spec fn joined(texts: Seq<Seq<char>>) -> Seq<char>
    decreases texts.len(),
{
    if texts.len() == 0 {
        Seq::empty()
    } else if texts.len() == 1 {
        texts.last()
    } else {
        joined(texts.drop_last()).push('+') + texts.last()
    }
}

/// A text is cut at its plus signs and nowhere else: no part has one, and with
/// plus signs between them the parts are the text again.
pub proof fn text_is_cut_at_plus_signs(s: Seq<char>, i: int, k: int)
    ensures
        joined(parts(s)) == s,
        0 <= i < parts(s).len() && 0 <= k < parts(s)[i].len() ==> parts(s)[i][k] != '+',
{
    joined_parts(s, i);
}

/// A key by a letter has that letter's capital for a code, a key by a digit that
/// digit, and F and a number from 1 to 24 the codes from 0x70 on.
pub proof fn keys_by_their_names(c: char, n: int, t: Seq<char>)
    ensures
        97 <= c as int <= 122 ==> (key_code(seq![c]) matches Some(vk) && vk == c as int - 32),
        65 <= c as int <= 90 || 48 <= c as int <= 57 ==> (key_code(seq![c]) matches Some(vk) && vk
            == c as int),
        !(97 <= c as int <= 122 || 65 <= c as int <= 90 || 48 <= c as int <= 57) ==> key_code(
            seq![c],
        ) is None,
        t.len() >= 1 && spelled(t) == Some(n) && 1 <= n <= 24 ==> key_code(seq!['F'] + t) == Some(
            (0x6F + n) as u32,
        ) && key_code(seq!['f'] + t) == Some((0x6F + n) as u32),
        t.len() >= 1 && !(spelled(t) matches Some(k) && 1 <= k <= 24) ==> key_code(seq!['F'] + t)
            is None,
        key_code(Seq::empty()) is None,
{
    assert((seq!['F'] + t).subrange(1, (seq!['F'] + t).len() as int) =~= t);
    assert((seq!['f'] + t).subrange(1, (seq!['f'] + t).len() as int) =~= t);
    assert((seq!['F'] + t)[0] == 'F' && (seq!['f'] + t)[0] == 'f');
    let one = seq![c];
    assert(one[0] == c && one.len() == 1);
}

/// What digits spell counts each ten times as much as the next.
pub proof fn spelled_numbers_count_in_tens(s: Seq<char>, c: char)
    requires
        48 <= c as int <= 57,
    ensures
        spelled(seq![c]) == Some(c as int - 48),
        s.len() >= 1 && s[0] != '+' ==> (spelled(s.push(c)) == match spelled(s) {
            Some(n) => Some(10 * n + (c as int - 48)),
            None => None,
        }),
{
    let one = seq![c];
    assert(one.drop_last() =~= Seq::<char>::empty());
    assert(number(one.drop_last()) == 0);
    assert(digit(one[0]));
    assert(all_digits(one));
    assert(number(one) == c as int - 48);
    if s.len() >= 1 && s[0] != '+' {
        let longer = s.push(c);
        assert(longer.drop_last() =~= s);
        assert(longer[0] == s[0]);
        if all_digits(s) {
            assert forall|i: int| 0 <= i < longer.len() implies digit(#[trigger] longer[i]) by {
                if i < s.len() {
                    assert(longer[i] == s[i]);
                }
            }
        }
        if all_digits(longer) {
            assert forall|i: int| 0 <= i < s.len() implies digit(#[trigger] s[i]) by {
                assert(longer[i] == s[i]);
            }
        }
    }
}

/// The four modifiers by their names: Ctrl also as Control, in either case and
/// with blanks around it or without. Whatever is none of them is a key or
/// nothing.
pub proof fn words_by_their_names(part: Seq<char>)
    ensures
        ({
            let t = trimmed(part);
            let ctrl = same_ignoring_case(t, "ctrl"@) || same_ignoring_case(t, "control"@);
            let alt = same_ignoring_case(t, "alt"@);
            let shift = same_ignoring_case(t, "shift"@);
            let win = same_ignoring_case(t, "win"@);
            &&& word(part) is Ctrl <==> ctrl
            &&& word(part) is Alt <==> alt
            &&& word(part) is Shift <==> shift
            &&& word(part) is Win <==> win
            &&& word(part) is Key ==> key_code(t) == Some(word(part)->0)
            &&& key_code(t) is Some && !ctrl && !alt && !shift && !win ==> word(part) is Key
        }),
{
    reveal_strlit("ctrl");
    reveal_strlit("control");
    reveal_strlit("alt");
    reveal_strlit("shift");
    reveal_strlit("win");
    let t = trimmed(part);
    if same_ignoring_case(t, "alt"@) && same_ignoring_case(t, "win"@) {
        assert(upper(t[0]) == upper("alt"@[0]));
        assert(upper(t[0]) == upper("win"@[0]));
    }
}

/// A text names a shortcut exactly where each of its parts is a modifier or a
/// key, none of them is said twice, there is one key and at least one modifier.
pub proof fn shortcut_needs_a_key_and_a_modifier(s: Seq<char>, c: HotkeyCombo)
    requires
        parsed(s) == Some(c),
    ensures
        c.ctrl || c.alt || c.shift || c.win,
        exists|i: int| 0 <= i < parts(s).len() && #[trigger] word(parts(s)[i]) == Word::Key(c.vk),
        forall|i: int|
            0 <= i < parts(s).len() ==> !(#[trigger] word(parts(s)[i]) is Unknown),
        forall|i: int, j: int|
            0 <= i < j < parts(s).len() ==> !(#[trigger] word(parts(s)[i]) is Key
                && #[trigger] word(parts(s)[j]) is Key),
        c.ctrl <==> exists|i: int| 0 <= i < parts(s).len() && #[trigger] word(parts(s)[i]) is Ctrl,
        c.alt <==> exists|i: int| 0 <= i < parts(s).len() && #[trigger] word(parts(s)[i]) is Alt,
        c.shift <==> exists|i: int|
            0 <= i < parts(s).len() && #[trigger] word(parts(s)[i]) is Shift,
        c.win <==> exists|i: int| 0 <= i < parts(s).len() && #[trigger] word(parts(s)[i]) is Win,
{
    assert(names(s, c));
    let ws = words(s);
    assert forall|i: int| 0 <= i < ws.len() implies ws[i] == #[trigger] word(parts(s)[i]) by {
    }
    assert forall|i: int| 0 <= i < parts(s).len() implies !(#[trigger] word(
        parts(s)[i],
    ) is Unknown) by {
        assert(ws[i] == word(parts(s)[i]));
        if ws[i] is Unknown {
            assert(ws.contains(Word::Unknown));
        }
    }
    let kind = |w: Word| w is Key;
    assert forall|i: int, j: int| 0 <= i < j < parts(s).len() implies !(#[trigger] word(
        parts(s)[i],
    ) is Key && #[trigger] word(parts(s)[j]) is Key) by {
        if word(parts(s)[i]) is Key && word(parts(s)[j]) is Key {
            assert(kind(ws[i]) && kind(ws[j]));
        }
    }
    let k = choose|k: int| 0 <= k < ws.len() && ws[k] == Word::Key(c.vk);
    assert(word(parts(s)[k]) == Word::Key(c.vk));
    said(s, Word::Ctrl);
    said(s, Word::Alt);
    said(s, Word::Shift);
    said(s, Word::Win);
}

proof fn said(s: Seq<char>, w: Word)
    ensures
        words(s).contains(w) <==> exists|i: int|
            0 <= i < parts(s).len() && #[trigger] word(parts(s)[i]) == w,
{
    let ws = words(s);
    if ws.contains(w) {
        let i = choose|i: int| 0 <= i < ws.len() && ws[i] == w;
        assert(word(parts(s)[i]) == w);
    }
    if exists|i: int| 0 <= i < parts(s).len() && #[trigger] word(parts(s)[i]) == w {
        let i = choose|i: int| 0 <= i < parts(s).len() && #[trigger] word(parts(s)[i]) == w;
        assert(ws[i] == w);
    }
}

/// A text whose parts are all known, none said twice, with one key and at least one
/// modifier, names the shortcut of those modifiers and that key.
pub proof fn known_words_name_a_shortcut(s: Seq<char>, c: HotkeyCombo, at: int)
    requires
        0 <= at < parts(s).len(),
        word(parts(s)[at]) == Word::Key(c.vk),
        forall|i: int| 0 <= i < parts(s).len() ==> !(#[trigger] word(parts(s)[i]) is Unknown),
        forall|i: int, j: int|
            0 <= i < j < parts(s).len() ==> #[trigger] word(parts(s)[i]) != #[trigger] word(
                parts(s)[j],
            ),
        forall|i: int|
            0 <= i < parts(s).len() && #[trigger] word(parts(s)[i]) is Key ==> i == at,
        c.ctrl == exists|i: int|
            0 <= i < parts(s).len() && #[trigger] word(parts(s)[i]) == Word::Ctrl,
        c.alt == exists|i: int|
            0 <= i < parts(s).len() && #[trigger] word(parts(s)[i]) == Word::Alt,
        c.shift == exists|i: int|
            0 <= i < parts(s).len() && #[trigger] word(parts(s)[i]) == Word::Shift,
        c.win == exists|i: int|
            0 <= i < parts(s).len() && #[trigger] word(parts(s)[i]) == Word::Win,
        c.ctrl || c.alt || c.shift || c.win,
    ensures
        parsed(s) == Some(c),
{
    let ws = words(s);
    said(s, Word::Ctrl);
    said(s, Word::Alt);
    said(s, Word::Shift);
    said(s, Word::Win);
    said(s, Word::Unknown);
    said(s, Word::Key(c.vk));
    assert forall|i: int, j: int|
        0 <= i < ws.len() && 0 <= j < ws.len() && (#[trigger] ws[i] == #[trigger] ws[j] || (
        ws[i] is Key && ws[j] is Key)) implies i == j by {
        assert(ws[i] == word(parts(s)[i]));
        assert(ws[j] == word(parts(s)[j]));
        if i < j {
            assert(word(parts(s)[i]) != word(parts(s)[j]) || i == j);
        }
        if j < i {
            assert(word(parts(s)[j]) != word(parts(s)[i]) || i == j);
        }
    }
    assert(words_name(ws, c));
    names_one(s, c, c);
}

/// No modifier is said twice in a text that names a shortcut.
pub proof fn no_modifier_is_said_twice(s: Seq<char>, i: int, j: int)
    requires
        parsed(s) is Some,
        0 <= i < j < parts(s).len(),
    ensures
        word(parts(s)[i]) != word(parts(s)[j]),
{
    let c = parsed(s)->0;
    assert(names(s, c));
    let ws = words(s);
    assert(ws[i] == word(parts(s)[i]) && ws[j] == word(parts(s)[j]));
    if ws[i] == ws[j] {
        spoilt(ws, j, i, c);
    }
}

} // verus!
