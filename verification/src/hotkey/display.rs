//! A shortcut as text.

use vstd::prelude::*;

use crate::hotkey::grammar::{
    all_digits, key_code, names, names_one, number, parsed, parts, spelled, word, words,
    words_name, Word,
};
use crate::hotkey::HotkeyCombo;
use crate::text::{
    append, append_digits, digit_char, digits, digits_are_read_back, same_ignoring_case, text_of,
    trim_keeps_solid, trimmed, upper, value_of, white,
};

verus! {

/// A key by its name: a letter or a digit by itself, a function key by its
/// number, and any other by its code.
pub open spec fn key_text(vk: u32) -> Seq<char> {
    if 0x30 <= vk <= 0x39 || 0x41 <= vk <= 0x5A {
        seq![vk as char]
    } else if 0x70 <= vk <= 0x87 {
        seq!['F'] + digits((vk - 0x70 + 1) as nat, 10)
    } else if vk < 16 {
        "VK0x0"@ + digits(vk as nat, 16)
    } else {
        "VK0x"@ + digits(vk as nat, 16)
    }
}

fn append_key(out: &mut Vec<char>, vk: u32)
    ensures
        final(out)@ == old(out)@ + key_text(vk),
{
    if (vk >= 0x30 && vk <= 0x39) || (vk >= 0x41 && vk <= 0x5A) {
        out.push(vk as u8 as char);
    } else if vk >= 0x70 && vk <= 0x87 {
        out.push('F');
        append_digits(out, vk - 0x70 + 1, 10);
    } else if vk < 16 {
        append(out, "VK0x0");
        append_digits(out, vk, 16);
    } else {
        append(out, "VK0x");
        append_digits(out, vk, 16);
    }
    assert(out@ =~= old(out)@ + key_text(vk));
}

/// A modifier's name and a plus sign, where the modifier is held.
pub open spec fn modifier_text(held: bool, name: Seq<char>) -> Seq<char> {
    if held {
        name + seq!['+']
    } else {
        seq![]
    }
}

/// A shortcut as text: the modifiers in a fixed order, then the key.
pub open spec fn shown(c: HotkeyCombo) -> Seq<char> {
    modifier_text(c.ctrl, "Ctrl"@) + (modifier_text(c.alt, "Alt"@) + (modifier_text(
        c.shift,
        "Shift"@,
    ) + (modifier_text(c.win, "Win"@) + key_text(c.vk))))
}

fn append_modifier(out: &mut Vec<char>, held: bool, name: &str)
    ensures
        final(out)@ == old(out)@ + modifier_text(held, name@),
{
    if held {
        append(out, name);
        out.push('+');
    }
    assert(out@ =~= old(out)@ + modifier_text(held, name@));
}

impl HotkeyCombo {
    /// The shortcut as text.
    pub fn display_string(&self) -> (r: String)
        ensures
            r@ == shown(*self),
    {
        let mut out: Vec<char> = Vec::new();
        append_modifier(&mut out, self.ctrl, "Ctrl");
        append_modifier(&mut out, self.alt, "Alt");
        append_modifier(&mut out, self.shift, "Shift");
        append_modifier(&mut out, self.win, "Win");
        append_key(&mut out, self.vk);
        assert(out@ =~= shown(*self));
        text_of(&out)
    }
}

/// A key that has a name of its own.
pub open spec fn named_key(vk: u32) -> bool {
    0x30 <= vk <= 0x39 || 0x41 <= vk <= 0x5A || 0x70 <= vk <= 0x87
}

proof fn parts_of_joined(a: Seq<char>, b: Seq<char>)
    ensures
        parts(a.push('+') + b) == parts(a) + parts(b),
        parts(b).len() >= 1,
    decreases b.len(),
{
    let all = a.push('+') + b;
    if b.len() == 0 {
        assert(all =~= a.push('+'));
        assert(all.drop_last() =~= a);
        assert(parts(all) =~= parts(a) + parts(b));
    } else {
        parts_of_joined(a, b.drop_last());
        assert(all.drop_last() =~= a.push('+') + b.drop_last());
        assert(all.last() == b.last());
        assert(parts(all) =~= parts(a) + parts(b));
    }
}

proof fn parts_of_solid(a: Seq<char>)
    requires
        forall|i: int| 0 <= i < a.len() ==> a[i] != '+',
    ensures
        parts(a) == seq![a],
    decreases a.len(),
{
    if a.len() > 0 {
        parts_of_solid(a.drop_last());
        assert(a.drop_last().push(a.last()) =~= a);
        assert(parts(a) =~= seq![a]);
    } else {
        assert(a =~= Seq::<char>::empty());
    }
}

proof fn parts_behind_modifier(held: bool, name: Seq<char>, rest: Seq<char>)
    requires
        forall|i: int| 0 <= i < name.len() ==> name[i] != '+',
    ensures
        parts(modifier_text(held, name) + rest) == (if held {
            seq![name] + parts(rest)
        } else {
            parts(rest)
        }),
{
    if held {
        parts_of_solid(name);
        parts_of_joined(name, rest);
        assert(name + seq!['+'] =~= name.push('+'));
    } else {
        assert(Seq::<char>::empty() + rest =~= rest);
    }
}

proof fn small_digits(n: nat)
    requires
        n < 100,
    ensures
        digits(n, 10) == (if n < 10 {
            seq![digit_char(n as int)]
        } else {
            seq![digit_char((n / 10) as int), digit_char((n % 10) as int)]
        }),
        all_digits(digits(n, 10)),
        number(digits(n, 10)) == n,
{
    reveal_with_fuel(digits, 3);
    reveal_with_fuel(number, 3);
    let d = digits(n, 10);
    if n < 10 {
        assert(d =~= seq![digit_char(n as int)]);
        assert(d.drop_last() =~= Seq::<char>::empty());
    } else {
        assert(d =~= seq![digit_char((n / 10) as int), digit_char((n % 10) as int)]);
        assert(d.drop_last() =~= seq![digit_char((n / 10) as int)]);
        assert(d.drop_last().drop_last() =~= Seq::<char>::empty());
    }
}

proof fn key_text_is_read_back(vk: u32)
    requires
        named_key(vk),
    ensures
        word(key_text(vk)) == Word::Key(vk),
        forall|i: int| 0 <= i < key_text(vk).len() ==> key_text(vk)[i] != '+',
{
    let t = key_text(vk);
    reveal_strlit("ctrl");
    reveal_strlit("control");
    reveal_strlit("alt");
    reveal_strlit("shift");
    reveal_strlit("win");
    if 0x70 <= vk <= 0x87 {
        let n = (vk - 0x70 + 1) as nat;
        small_digits(n);
        assert(t.subrange(1, t.len() as int) =~= digits(n, 10));
        assert(digits(n, 10)[0] != '+');
        assert(spelled(digits(n, 10)) == Some(n as int));
        assert(upper(t[0]) == 'F');
    } else {
        assert(t.len() == 1);
    }
    assert(!white(t.first()) && !white(t.last()));
    trim_keeps_solid(t);
    assert(t.len() == 1 || upper(t[0]) != upper("alt"@[0]));
    assert(t.len() == 1 || upper(t[0]) != upper("win"@[0]));
    assert(key_code(t) == Some(vk));
}

proof fn modifier_names_are_read_back()
    ensures
        word("Ctrl"@) == Word::Ctrl,
        word("Alt"@) == Word::Alt,
        word("Shift"@) == Word::Shift,
        word("Win"@) == Word::Win,
        forall|i: int| 0 <= i < "Ctrl"@.len() ==> "Ctrl"@[i] != '+',
        forall|i: int| 0 <= i < "Alt"@.len() ==> "Alt"@[i] != '+',
        forall|i: int| 0 <= i < "Shift"@.len() ==> "Shift"@[i] != '+',
        forall|i: int| 0 <= i < "Win"@.len() ==> "Win"@[i] != '+',
{
    reveal_strlit("ctrl");
    reveal_strlit("control");
    reveal_strlit("alt");
    reveal_strlit("shift");
    reveal_strlit("win");
    reveal_strlit("Ctrl");
    reveal_strlit("Alt");
    reveal_strlit("Shift");
    reveal_strlit("Win");
    trim_keeps_solid("Ctrl"@);
    trim_keeps_solid("Alt"@);
    trim_keeps_solid("Shift"@);
    trim_keeps_solid("Win"@);
    assert(same_ignoring_case("Ctrl"@, "ctrl"@));
    assert(same_ignoring_case("Alt"@, "alt"@));
    assert(same_ignoring_case("Shift"@, "shift"@));
    assert(upper("Win"@[0]) != upper("alt"@[0]));
    assert(same_ignoring_case("Win"@, "win"@));
}

spec fn held_word(held: bool, w: Word) -> Seq<Word> {
    if held {
        seq![w]
    } else {
        seq![]
    }
}

spec fn shown_words(c: HotkeyCombo) -> Seq<Word> {
    held_word(c.ctrl, Word::Ctrl) + (held_word(c.alt, Word::Alt) + (held_word(c.shift, Word::Shift)
        + (held_word(c.win, Word::Win) + seq![Word::Key(c.vk)])))
}

proof fn words_of_shown(c: HotkeyCombo)
    requires
        named_key(c.vk),
    ensures
        words(shown(c)) == shown_words(c),
{
    modifier_names_are_read_back();
    key_text_is_read_back(c.vk);
    let key = key_text(c.vk);
    parts_of_solid(key);
    let with_win = modifier_text(c.win, "Win"@) + key;
    let with_shift = modifier_text(c.shift, "Shift"@) + with_win;
    let with_alt = modifier_text(c.alt, "Alt"@) + with_shift;
    parts_behind_modifier(c.win, "Win"@, key);
    parts_behind_modifier(c.shift, "Shift"@, with_win);
    parts_behind_modifier(c.alt, "Alt"@, with_shift);
    parts_behind_modifier(c.ctrl, "Ctrl"@, with_alt);
    assert(words(key) =~= seq![Word::Key(c.vk)]);
    assert(words(with_win) =~= held_word(c.win, Word::Win) + words(key));
    assert(words(with_shift) =~= held_word(c.shift, Word::Shift) + words(with_win));
    assert(words(with_alt) =~= held_word(c.alt, Word::Alt) + words(with_shift));
    assert(words(shown(c)) =~= held_word(c.ctrl, Word::Ctrl) + words(with_alt));
}

proof fn shown_words_name(c: HotkeyCombo)
    ensures
        words_name(shown_words(c), c),
{
    let ws = shown_words(c);
    let a: int = if c.ctrl {
        1
    } else {
        0
    };
    let b: int = if c.alt {
        a + 1
    } else {
        a
    };
    let d: int = if c.shift {
        b + 1
    } else {
        b
    };
    let e: int = if c.win {
        d + 1
    } else {
        d
    };
    assert(ws.len() == e + 1);
    assert(ws[e] == Word::Key(c.vk));
    assert(c.ctrl ==> ws[0] == Word::Ctrl);
    assert(c.alt ==> ws[a] == Word::Alt);
    assert(c.shift ==> ws[b] == Word::Shift);
    assert(c.win ==> ws[d] == Word::Win);
    assert forall|i: int| 0 <= i < ws.len() implies (#[trigger] ws[i] is Ctrl <==> c.ctrl && i == 0)
        && (ws[i] is Alt <==> c.alt && i == a) && (ws[i] is Shift <==> c.shift && i == b)
        && (ws[i] is Win <==> c.win && i == d) && (ws[i] is Key <==> i == e) && !(
    ws[i] is Unknown) by {
    }
}

/// Reading a shortcut's text back gives the shortcut: whatever has a modifier
/// and a key with a name of its own survives being shown.
pub proof fn shown_is_read_back(c: HotkeyCombo)
    requires
        named_key(c.vk),
        c.ctrl || c.alt || c.shift || c.win,
    ensures
        names(shown(c), c),
        parsed(shown(c)) == Some(c),
{
    words_of_shown(c);
    shown_words_name(c);
    names_one(shown(c), c, c);
}

/// Whatever text a shortcut was read from, it has a modifier and a key with a
/// name of its own, so that it can be shown and read again.
pub proof fn read_can_be_shown(s: Seq<char>, c: HotkeyCombo)
    requires
        parsed(s) == Some(c),
    ensures
        named_key(c.vk),
        c.ctrl || c.alt || c.shift || c.win,
        parsed(shown(c)) == Some(c),
{
    assert(names(s, c));
    let ws = words(s);
    let i = choose|i: int| 0 <= i < ws.len() && ws[i] == Word::Key(c.vk);
    assert(word(parts(s)[i]) == Word::Key(c.vk));
    let t = trimmed(parts(s)[i]);
    assert(key_code(t) == Some(c.vk));
    shown_is_read_back(c);
}

/// A key's text: a letter or a digit is itself; the codes from 0x70 to 0x87 are F
/// and a number from one on; any other is VK0x and its code in hexadecimal, with
/// a zero before a single digit.
pub proof fn key_text_by_code(vk: u32)
    ensures
        48 <= vk <= 57 || 65 <= vk <= 90 ==> key_text(vk).len() == 1 && key_text(vk)[0] as int
            == vk,
        0x70 <= vk <= 0x87 ==> key_text(vk)[0] == 'F' && value_of(key_text(vk).drop_first(), 10)
            == vk - 0x6F,
        !(48 <= vk <= 57 || 65 <= vk <= 90 || 0x70 <= vk <= 0x87) ==> {
            let t = key_text(vk);
            &&& t.len() >= 6
            &&& t.take(4) == seq!['V', 'K', '0', 'x']
            &&& value_of(t.skip(4), 16) == vk
            &&& vk < 16 ==> t[4] == '0' && t.len() == 6
            &&& vk >= 16 ==> t[4] != '0'
        },
{
    let t = key_text(vk);
    reveal_strlit("VK0x");
    reveal_strlit("VK0x0");
    if 0x70 <= vk <= 0x87 {
        digits_are_read_back((vk - 0x6F) as nat, 10);
        assert(t.drop_first() =~= digits((vk - 0x6F) as nat, 10));
    } else if !(48 <= vk <= 57 || 65 <= vk <= 90) {
        let d = digits(vk as nat, 16);
        digits_are_read_back(vk as nat, 16);
        assert(t.take(4) =~= seq!['V', 'K', '0', 'x']);
        if vk < 16 {
            assert(d.len() == 1);
            assert(t.skip(4) =~= seq!['0'] + d);
            assert(t.skip(4).drop_last() =~= seq!['0']);
            assert(seq!['0'].drop_last() =~= Seq::<char>::empty());
            assert(d.drop_last() =~= Seq::<char>::empty());
            reveal_with_fuel(value_of, 3);
        } else {
            assert(t.skip(4) =~= d);
            assert(d.len() >= 2) by {
                reveal_with_fuel(digits, 2);
                digits_are_read_back((vk / 16) as nat, 16);
            }
        }
    }
}

/// A shortcut's text is its key's, behind Ctrl, Alt, Shift and Win, each with a
/// plus sign, in this order and each only where it is held.
pub proof fn modifiers_stand_before_the_key(c: HotkeyCombo)
    ensures
        !c.ctrl && !c.alt && !c.shift && !c.win ==> shown(c) == key_text(c.vk),
        c.win && !c.ctrl && !c.alt && !c.shift ==> shown(c) == seq!['W', 'i', 'n', '+'] + shown(
            HotkeyCombo { win: false, ..c },
        ),
        c.shift && !c.ctrl && !c.alt ==> shown(c) == seq!['S', 'h', 'i', 'f', 't', '+'] + shown(
            HotkeyCombo { shift: false, ..c },
        ),
        c.alt && !c.ctrl ==> shown(c) == seq!['A', 'l', 't', '+'] + shown(
            HotkeyCombo { alt: false, ..c },
        ),
        c.ctrl ==> shown(c) == seq!['C', 't', 'r', 'l', '+'] + shown(
            HotkeyCombo { ctrl: false, ..c },
        ),
{
    reveal_strlit("Ctrl");
    reveal_strlit("Alt");
    reveal_strlit("Shift");
    reveal_strlit("Win");
    let none = Seq::<char>::empty();
    assert("Ctrl"@ + seq!['+'] =~= seq!['C', 't', 'r', 'l', '+']);
    assert("Alt"@ + seq!['+'] =~= seq!['A', 'l', 't', '+']);
    assert("Shift"@ + seq!['+'] =~= seq!['S', 'h', 'i', 'f', 't', '+']);
    assert("Win"@ + seq!['+'] =~= seq!['W', 'i', 'n', '+']);
    let win = modifier_text(c.win, "Win"@) + key_text(c.vk);
    let shift = modifier_text(c.shift, "Shift"@) + win;
    let alt = modifier_text(c.alt, "Alt"@) + shift;
    assert(none + key_text(c.vk) =~= key_text(c.vk));
    assert(none + win =~= win);
    assert(none + shift =~= shift);
    assert(none + alt =~= alt);
    let bare = none + key_text(c.vk);
    assert(none + (none + (none + bare)) =~= key_text(c.vk));
    let no_shift = none + win;
    assert(none + (none + no_shift) =~= win);
    let no_alt = none + shift;
    assert(none + no_alt =~= shift);
}

} // verus!
