//! Shortcuts that the system keeps for itself: the person is told before such a
//! shortcut is assigned, for it may be granted and still never arrive.

use vstd::prelude::*;

use crate::hotkey::display::shown;
use crate::hotkey::HotkeyCombo;
use crate::text::{chars_of, is_text, trim, trimmed};
use crate::utf16::{before_zero, first_zero_ends_the_text, length_before_zero};
use crate::winapi::{ERROR_FILE_NOT_FOUND, ERROR_SUCCESS, VK_F12};

verus! {

/// Where the registry says what switches the keyboard layout.
pub const TOGGLE_KEY: &'static str = "Keyboard Layout\\Toggle";

/// The type of a value that is text.
pub const REG_SZ: u32 = 1;

/// Why Alt+Shift is a risk.
pub const TOGGLE_ALT_SHIFT: &'static str = "Alt+Shift назначен в Windows переключателем языка/раскладки \
    клавиатуры (настройка по умолчанию либо HKCU\\Keyboard Layout\\Toggle). На многих машинах \
    Windows переключает раскладку раньше, чем нажатие доходит до приложения: хоткей \
    зарегистрируется, но молча не сработает. Выберите другую комбинацию или отключите \
    переключатель: Параметры → Время и язык → Ввод → Дополнительные параметры клавиатуры → \
    Сочетания клавиш ввода языка.";

/// Why Ctrl+Shift is a risk.
pub const TOGGLE_CTRL_SHIFT: &'static str = "Ctrl+Shift назначен в Windows переключателем языка/раскладки \
    клавиатуры (HKCU\\Keyboard Layout\\Toggle). На многих машинах Windows переключает раскладку \
    раньше, чем нажатие доходит до приложения: хоткей зарегистрируется, но молча не сработает. \
    Выберите другую комбинацию или отключите переключатель: Параметры → Время и язык → Ввод → \
    Дополнительные параметры клавиатуры → Сочетания клавиш ввода языка.";

/// Why a shortcut with the Win key is a risk.
pub const WIN_MODIFIER: &'static str = "Сочетания с клавишей Win зарезервированы за операционной системой: \
    большинство Win-комбинаций (Win+D, Win+E, Win+R, Win+L, Win+S, Win+Shift+S и другие) не \
    регистрируются — система отвечает «уже зарегистрировано», а часть системных обрабатывается \
    раньше слоя хоткеев. Выберите комбинацию без Win.";

/// Why F12 is a risk.
pub const F12_RESERVED: &'static str = "F12 зарезервирован Windows для отладчика (документация \
    RegisterHotKey): на машинах с активным отладчиком нажатие не дойдёт до приложения. \
    Выберите другую клавишу.";

/// What the person is told of a shortcut.
#[derive(Debug, Clone, PartialEq, Eq)]
pub struct HotkeyWarning {
    /// The shortcut as text.
    pub combo: String,
    /// Why it is a risk, and what to do.
    pub explanation: &'static str,
}

/// Which pairs of modifiers switch the keyboard layout.
#[derive(Debug, Clone, Copy, PartialEq, Eq, Structural)]
pub struct LayoutToggleConfig {
    pub alt_shift: bool,
    pub ctrl_shift: bool,
}

impl LayoutToggleConfig {
    /// What holds where the registry says nothing: Alt+Shift switches.
    pub fn defaults() -> (r: Self)
        ensures
            r == (LayoutToggleConfig { alt_shift: true, ctrl_shift: false }),
    {
        Self { alt_shift: true, ctrl_shift: false }
    }
}

/// Why a shortcut is a risk, the likeliest reason first; none where it is not.
pub open spec fn risk(combo: HotkeyCombo, toggle: LayoutToggleConfig) -> Option<Seq<char>> {
    if toggle.alt_shift && combo.alt && combo.shift {
        Some(TOGGLE_ALT_SHIFT@)
    } else if toggle.ctrl_shift && combo.ctrl && combo.shift {
        Some(TOGGLE_CTRL_SHIFT@)
    } else if combo.win {
        Some(WIN_MODIFIER@)
    } else if combo.vk == VK_F12 {
        Some(F12_RESERVED@)
    } else {
        None
    }
}

/// A warning says of which shortcut it is and why.
pub open spec fn warns(
    warning: Option<HotkeyWarning>,
    combo: HotkeyCombo,
    toggle: LayoutToggleConfig,
) -> bool {
    match (warning, risk(combo, toggle)) {
        (Some(w), Some(why)) => w.combo@ == shown(combo) && w.explanation@ == why,
        (None, None) => true,
        _ => false,
    }
}

/// What the person is told of a shortcut, where these pairs switch the layout.
pub fn check_risky_combo_with_toggle(combo: HotkeyCombo, toggle: LayoutToggleConfig) -> (r: Option<
    HotkeyWarning,
>)
    ensures
        warns(r, combo, toggle),
{
    if toggle.alt_shift && combo.alt && combo.shift {
        return Some(
            HotkeyWarning { combo: combo.display_string(), explanation: TOGGLE_ALT_SHIFT },
        );
    }
    if toggle.ctrl_shift && combo.ctrl && combo.shift {
        return Some(
            HotkeyWarning { combo: combo.display_string(), explanation: TOGGLE_CTRL_SHIFT },
        );
    }
    if combo.win {
        return Some(HotkeyWarning { combo: combo.display_string(), explanation: WIN_MODIFIER });
    }
    if combo.vk == VK_F12 {
        return Some(HotkeyWarning { combo: combo.display_string(), explanation: F12_RESERVED });
    }
    None
}

/// What came of reading a value: its text, nothing where there is no such
/// value, or the code of the failure.
pub type ValueRead = Result<Option<String>, u32>;

/// What came of reading the values that say what switches the layout.
#[derive(Debug, PartialEq, Eq)]
pub struct ToggleReads {
    pub hotkey: ValueRead,
    pub language_hotkey: ValueRead,
    pub layout_hotkey: ValueRead,
}

/// A value says this, blanks at its ends aside.
pub open spec fn says(read: ValueRead, what: Seq<char>) -> bool {
    read matches Ok(Some(text)) && trimmed(text@) == what
}

/// There is no such value.
pub open spec fn is_missing(read: ValueRead) -> bool {
    read matches Ok(None)
}

/// Which pairs switch the layout, by what the registry says. Without the first
/// two values the system goes by its own rule, which is Alt+Shift; the third
/// has no such rule. Where something cannot be read, Alt+Shift is taken to
/// switch: better one warning too many than a shortcut that silently fails.
pub open spec fn toggle_of(reads: Result<ToggleReads, u32>) -> LayoutToggleConfig {
    match reads {
        Ok(v) => LayoutToggleConfig {
            alt_shift: says(v.hotkey, "1"@) || is_missing(v.hotkey) || says(
                v.language_hotkey,
                "1"@,
            ) || is_missing(v.language_hotkey) || says(v.layout_hotkey, "1"@) || v.hotkey is Err
                || v.language_hotkey is Err || v.layout_hotkey is Err,
            ctrl_shift: says(v.hotkey, "2"@) || says(v.language_hotkey, "2"@) || says(
                v.layout_hotkey,
                "2"@,
            ),
        },
        Err(_) => LayoutToggleConfig { alt_shift: true, ctrl_shift: false },
    }
}

fn take_up(cfg: &mut LayoutToggleConfig, read: &ValueRead, missing_default: bool)
    ensures
        final(cfg).alt_shift == (old(cfg).alt_shift || says(*read, "1"@) || (missing_default
            && is_missing(*read)) || *read is Err),
        final(cfg).ctrl_shift == (old(cfg).ctrl_shift || says(*read, "2"@)),
{
    proof {
        reveal_strlit("1");
        reveal_strlit("2");
    }
    match read {
        Ok(Some(text)) => {
            let value = trim(&chars_of(text.as_str()));
            if is_text(&value, "1") {
                assert("1"@[0] != "2"@[0]);
                cfg.alt_shift = true;
            } else if is_text(&value, "2") {
                cfg.ctrl_shift = true;
            }
        },
        Ok(None) => {
            if missing_default {
                cfg.alt_shift = true;
            }
        },
        Err(_) => {
            cfg.alt_shift = true;
        },
    }
}

/// Which pairs switch the layout, by what the registry says. `Err` says that
/// the whole key could not be opened.
pub fn read_layout_toggle(reads: &Result<ToggleReads, u32>) -> (r: LayoutToggleConfig)
    ensures
        r == toggle_of(*reads),
{
    match reads {
        Ok(v) => {
            let mut cfg = LayoutToggleConfig { alt_shift: false, ctrl_shift: false };
            take_up(&mut cfg, &v.hotkey, true);
            take_up(&mut cfg, &v.language_hotkey, true);
            take_up(&mut cfg, &v.layout_hotkey, false);
            cfg
        },
        Err(_) => LayoutToggleConfig::defaults(),
    }
}

/// What the person is told of a shortcut, by what the registry says.
pub fn check_risky_combo(combo: HotkeyCombo, reads: &Result<ToggleReads, u32>) -> (r: Option<
    HotkeyWarning,
>)
    ensures
        warns(r, combo, toggle_of(*reads)),
{
    check_risky_combo_with_toggle(combo, read_layout_toggle(reads))
}

/// The text of a value's units: what is before the first zero, each unit by its
/// low byte.
pub open spec fn value_text(data: Seq<u16>, size: u32) -> Seq<char> {
    let len = if size / 2 <= data.len() {
        (size / 2) as int
    } else {
        data.len() as int
    };
    before_zero(data.take(len)).map_values(|u: u16| (u % 256) as char)
}

/// Whether a value has a text, by the code of the query and the type of the
/// value; the code where it could not be read.
pub open spec fn has_text(code: u32, value_type: u32) -> Result<bool, u32> {
    if code == ERROR_FILE_NOT_FOUND {
        Ok(false)
    } else if code != ERROR_SUCCESS {
        Err(code)
    } else {
        Ok(value_type == REG_SZ)
    }
}

/// What came of reading a value, by the code of the query, the type of the
/// value, and its bytes as units with their number.
pub fn read_value(code: u32, value_type: u32, data: &Vec<u16>, size: u32) -> (r: ValueRead)
    ensures
        match has_text(code, value_type) {
            Ok(true) => r matches Ok(Some(text)) && text@ == value_text(data@, size),
            Ok(false) => r == Ok::<Option<String>, u32>(None),
            Err(e) => r == Err::<Option<String>, u32>(e),
        },
        if code == ERROR_FILE_NOT_FOUND {
            r == Ok::<Option<String>, u32>(None)
        } else if code != ERROR_SUCCESS {
            r == Err::<Option<String>, u32>(code)
        } else if value_type != REG_SZ {
            r == Ok::<Option<String>, u32>(None)
        } else {
            r matches Ok(Some(text)) && text@ == value_text(data@, size)
        },
{
    if code == ERROR_FILE_NOT_FOUND {
        return Ok(None);
    }
    if code != ERROR_SUCCESS {
        return Err(code);
    }
    if value_type != REG_SZ {
        return Ok(None);
    }
    let half: u32 = size / 2;
    let len: usize = if half as usize <= data.len() {
        half as usize
    } else {
        data.len()
    };
    let units = vstd::slice::slice_subrange(data.as_slice(), 0, len);
    assert(units@ =~= data@.take(len as int));
    let count: usize = length_before_zero(units);
    let mut text = String::new();
    let mut i: usize = 0;
    while i < count
        invariant
            i <= count <= units@.len(),
            before_zero(units@) == units@.take(count as int),
            text@ == before_zero(units@).take(i as int).map_values(|u: u16| (u % 256) as char),
        decreases count - i,
    {
        let low: u8 = (units[i] % 256) as u8;
        text.push(low as char);
        assert(text@ =~= before_zero(units@).take(i + 1).map_values(|u: u16| (u % 256) as char));
        i = i + 1;
    }
    assert(before_zero(units@).take(count as int) =~= before_zero(units@));
    Ok(Some(text))
}

/// What switches the layout can only add warnings: a shortcut that is a risk
/// without it is one whatever it is.
pub proof fn toggles_only_add_warnings(combo: HotkeyCombo, toggle: LayoutToggleConfig)
    ensures
        risk(combo, LayoutToggleConfig { alt_shift: false, ctrl_shift: false }) is Some ==> risk(
            combo,
            toggle,
        ) is Some,
        risk(combo, toggle) is None ==> !combo.win && combo.vk != VK_F12,
{
}

/// Why a shortcut is a risk: Alt and Shift or Ctrl and Shift where the pair
/// switches the layout, the Win key, and F12, whose code is 0x7B; of several
/// reasons the first in this order. Any other shortcut is none.
pub proof fn risks_in_their_order(c: HotkeyCombo, t: LayoutToggleConfig)
    ensures
        ({
            let alt_shift = c.alt && c.shift && t.alt_shift;
            let ctrl_shift = c.ctrl && c.shift && t.ctrl_shift;
            &&& alt_shift ==> risk(c, t) == Some(TOGGLE_ALT_SHIFT@)
            &&& !alt_shift && ctrl_shift ==> risk(c, t) == Some(TOGGLE_CTRL_SHIFT@)
            &&& !alt_shift && !ctrl_shift && c.win ==> risk(c, t) == Some(WIN_MODIFIER@)
            &&& !alt_shift && !ctrl_shift && !c.win && c.vk == 0x7B ==> risk(c, t) == Some(
                F12_RESERVED@,
            )
            &&& !alt_shift && !ctrl_shift && !c.win && c.vk != 0x7B ==> risk(c, t) is None
        }),
{
}

/// A warning is given exactly where there is a risk, with the shortcut's text and
/// the reason.
pub proof fn warning_says_what_and_why(
    warning: HotkeyWarning,
    combo: HotkeyCombo,
    toggle: LayoutToggleConfig,
)
    ensures
        warns(None, combo, toggle) <==> risk(combo, toggle) is None,
        warns(Some(warning), combo, toggle) <==> warning.combo@ == shown(combo) && risk(
            combo,
            toggle,
        ) == Some(warning.explanation@),
{
}

/// Which pairs switch the layout. Alt+Shift does where any of the three values is
/// a one or cannot be read, and where either of the first two is missing;
/// Ctrl+Shift does where any of them is a two. Where none can be read at all, only
/// Alt+Shift does.
pub proof fn values_switch_the_layout(reads: Result<ToggleReads, u32>)
    ensures
        reads is Err ==> toggle_of(reads).alt_shift && !toggle_of(reads).ctrl_shift,
        reads matches Ok(v) ==> {
            let a = v.hotkey;
            let b = v.language_hotkey;
            let c = v.layout_hotkey;
            &&& toggle_of(reads).alt_shift <==> (a is Err || b is Err || c is Err || a == Ok::<
                Option<String>,
                u32,
            >(None) || b == Ok::<Option<String>, u32>(None) || (a matches Ok(Some(t)) && trimmed(t@)
                == seq!['1']) || (b matches Ok(Some(t)) && trimmed(t@) == seq!['1']) || (
            c matches Ok(Some(t)) && trimmed(t@) == seq!['1']))
            &&& toggle_of(reads).ctrl_shift <==> ((a matches Ok(Some(t)) && trimmed(t@)
                == seq!['2']) || (b matches Ok(Some(t)) && trimmed(t@) == seq!['2']) || (
            c matches Ok(Some(t)) && trimmed(t@) == seq!['2']))
        },
{
    reveal_strlit("1");
    reveal_strlit("2");
    assert("1"@ =~= seq!['1']);
    assert("2"@ =~= seq!['2']);
}

/// A value's text ends at its first zero, at half the number of its bytes or with
/// its units, whichever comes first; each character is the low byte of its unit.
pub proof fn value_ends_at_its_first_zero(data: Seq<u16>, size: u32)
    ensures
        ({
            let t = value_text(data, size);
            &&& t.len() <= data.len() && 2 * t.len() <= size
            &&& forall|i: int|
                0 <= i < t.len() ==> (#[trigger] t[i]) as int == data[i] % 256 && data[i] != 0
            &&& t.len() < data.len() && 2 * t.len() + 2 <= size ==> data[t.len() as int] == 0
        }),
{
    let len = if size / 2 <= data.len() {
        (size / 2) as int
    } else {
        data.len() as int
    };
    first_zero_ends_the_text(data.take(len));
    let t = value_text(data, size);
    assert forall|i: int| 0 <= i < t.len() implies (#[trigger] t[i]) as int == data[i] % 256
        && data[i] != 0 by {
        assert(data.take(len)[i] == data[i]);
    }
}

/// A value that is read (0) has a text where it is of the type one and none where
/// it is of another; one that is not there (2) has none; any other code is a failure
/// and is passed on.
pub proof fn values_have_text_by_their_codes(code: u32, value_type: u32)
    ensures
        has_text(code, value_type) == Ok::<bool, u32>(true) <==> code == 0 && value_type == 1,
        has_text(code, value_type) == Ok::<bool, u32>(false) <==> code == 2 || (code == 0
            && value_type != 1),
        code != 0 && code != 2 ==> has_text(code, value_type) == Err::<bool, u32>(code),
{
}

} // verus!
