use rst_win32::hotkey::groups::{
    EDIT_HOTKEY_ID, MITOSIS_HOTKEY_ID, MUTE_ALL_HOTKEY_ID, PIN_FOCUSED_HOTKEY_ID,
    PIN_OPEN_GROUP_HOTKEY_ID, TOGGLE_ALL_HOTKEY_ID, WINDOW_CROP_HOTKEY_ID,
};
use rst_win32::hotkey::registration::{request, SystemReply};
use rst_win32::hotkey::{
    all_hotkey_combos, group_hotkey_combos, group_open_combos, message_hotkey_id, HotkeyCombo,
    HotkeyRegistrationConflict, RegisteredHotkey, RegisteredHotkeySet, GROUP_DELETE_HOTKEY_ID,
    GROUP_MENU_HOTKEY_ID, GROUP_OPEN_HOTKEY_ID_BASE, UNPIN_ALL_HOTKEY_ID,
};
use rst_win32::hotkey_check::{
    check_risky_combo, check_risky_combo_with_toggle, read_layout_toggle, read_value,
    LayoutToggleConfig, ToggleReads, ValueRead, F12_RESERVED, TOGGLE_CTRL_SHIFT,
};
use rst_win32::hotkey_hook::{match_held, HeldModifiers, HookOp, HookState, HC_ACTION};
use rst_win32::model::{Hotkeys, GROUP_OPEN_SLOTS};
use rst_win32::winapi::{
    MOD_ALT, MOD_CONTROL, MOD_NOREPEAT, WM_KEYDOWN, WM_KEYUP, WM_SYSKEYDOWN,
};
use rst_win32::Win32Error;

const ALREADY_REGISTERED: i32 = 0x8007_0581u32 as i32;

#[test]
fn parse_valid_combos() {
    let c = HotkeyCombo::parse("Ctrl+Alt+S").expect("a valid shortcut");
    assert!(c.ctrl && c.alt && !c.shift && !c.win);
    assert_eq!(c.vk, 'S' as u32);

    let c = HotkeyCombo::parse("  ctrl + SHIFT + f12 ").expect("a valid shortcut");
    assert!(c.ctrl && c.shift && !c.alt && !c.win);
    assert_eq!(c.vk, 0x70 + 11);

    let c = HotkeyCombo::parse("Win+F24").expect("a valid shortcut");
    assert!(c.win);
    assert_eq!(c.vk, 0x87);

    let c = HotkeyCombo::parse("Alt+9").expect("a valid shortcut");
    assert_eq!(c.vk, '9' as u32);

    let c = HotkeyCombo::parse("Ctrl+F").expect("a valid shortcut");
    assert_eq!(c.vk, 'F' as u32);
}

#[test]
fn parse_rejects_invalid() {
    for bad in [
        "",
        "Ctrl",
        "Ctrl+",
        "Ctrl++S",
        "Ctrl+Ctrl+S",
        "Ctrl+Alt",
        "S",
        "Ctrl+S+D",
        "Ctrl+F25",
        "Ctrl+F0",
        "Ctrl+Space",
        "Ctrl+Й",
    ] {
        assert!(
            matches!(HotkeyCombo::parse(bad), Err(Win32Error::InvalidHotkey(_))),
            "{bad:?}"
        );
    }
}

#[test]
fn display_round_trip() {
    for s in ["Ctrl+Alt+S", "Ctrl+Shift+F12", "Alt+Win+0"] {
        let combo = HotkeyCombo::parse(s).expect("a valid shortcut");
        assert_eq!(combo.display_string(), s);
    }
}

#[test]
fn win32_modifiers_always_include_norepeat() {
    let combo = HotkeyCombo::parse("Ctrl+S").expect("a valid shortcut");
    let (mods, vk) = combo.to_win32();
    assert_ne!(mods & MOD_NOREPEAT, 0);
    assert_ne!(mods & MOD_CONTROL, 0);
    assert_eq!(mods & MOD_ALT, 0);
    assert_eq!(vk, 'S' as u32);
}

#[test]
fn hotkey_id_from_wparam() {
    assert_eq!(message_hotkey_id(42), 42);
}

/// The shortcuts of a session, as the system grants them.
struct Shortcuts {
    held: Vec<(u32, u32)>,
}

impl Shortcuts {
    fn new() -> Self {
        Shortcuts { held: Vec::new() }
    }

    fn ask(&mut self, id: i32, combo: HotkeyCombo) -> SystemReply {
        match request(id, combo) {
            Ok(asked) => {
                if self.held.contains(&asked) {
                    SystemReply::Refused(ALREADY_REGISTERED)
                } else {
                    self.held.push(asked);
                    SystemReply::Granted
                }
            }
            Err(_) => SystemReply::Granted,
        }
    }

    fn register(&mut self, id: i32, combo: HotkeyCombo) -> Result<RegisteredHotkey, Win32Error> {
        let reply = self.ask(id, combo);
        RegisteredHotkey::register(id, combo, reply)
    }

    fn register_all(
        &mut self,
        combos: Vec<(i32, HotkeyCombo)>,
    ) -> Result<RegisteredHotkeySet, Win32Error> {
        let replies = combos.iter().map(|(id, c)| self.ask(*id, *c)).collect();
        RegisteredHotkeySet::register_all(&combos, &replies)
    }

    fn give_back(&mut self, combo: HotkeyCombo) {
        let asked = combo.to_win32();
        self.held.retain(|h| *h != asked);
    }
}

#[test]
fn register_conflict_then_reregister_after_drop() {
    let mut system = Shortcuts::new();
    let combo = HotkeyCombo::parse("Ctrl+Alt+Shift+F24").expect("a valid shortcut");
    let first = system.register(0x4E01, combo).expect("free");
    assert_eq!(first.id(), 0x4E01);

    match system.register(0x4E02, combo) {
        Err(Win32Error::HotkeyConflict(s)) => assert_eq!(s, "Ctrl+Alt+Shift+F24"),
        other => panic!("{other:?}"),
    }

    system.give_back(combo);
    let second = system.register(0x4E02, combo).expect("free again");
    assert_eq!(second.id(), 0x4E02);
}

#[test]
fn parse_accepts_three_modifiers() {
    let c = HotkeyCombo::parse("Ctrl+Alt+Shift+G").expect("a valid shortcut");
    assert!(c.ctrl && c.alt && c.shift && !c.win);
    assert_eq!(c.vk, 'G' as u32);
    assert_eq!(c.display_string(), "Ctrl+Alt+Shift+G");
}

#[test]
fn parse_accepts_ctrl_shift_digits_one_through_nine() {
    for n in 1..=9 {
        let s = format!("Ctrl+Shift+{n}");
        let c = HotkeyCombo::parse(&s).expect("a valid shortcut");
        assert!(c.ctrl && c.shift && !c.alt && !c.win);
        assert_eq!(c.vk, '0' as u32 + n);
        assert_eq!(c.display_string(), s);
    }
}

#[test]
fn batch_registration_isolates_conflicts_and_registers_the_rest() {
    let mut system = Shortcuts::new();
    let occupied = HotkeyCombo::parse("Ctrl+Alt+Shift+F20").expect("a valid shortcut");
    let _hold = system.register(0x5001, occupied).expect("free");

    let free_a = HotkeyCombo::parse("Ctrl+Alt+Shift+F19").expect("a valid shortcut");
    let free_b = HotkeyCombo::parse("Ctrl+Alt+Shift+F18").expect("a valid shortcut");

    let mut set = system
        .register_all(vec![(0x5002, occupied), (0x5003, free_a), (0x5004, free_b)])
        .expect("one conflict costs no other");

    assert_eq!(set.registered(), 2);
    assert_eq!(
        set.conflicts(),
        &[HotkeyRegistrationConflict {
            id: 0x5002,
            combo: "Ctrl+Alt+Shift+F20".to_string(),
        }]
    );
    let ids = set.registered_ids();
    assert!(ids.contains(&0x5003) && ids.contains(&0x5004) && ids.len() == 2);
    let hotkeys = set.take_hotkeys();
    assert_eq!(hotkeys.len(), 2);
    assert_eq!(set.registered(), 0);

    system.give_back(free_a);
    system.give_back(free_b);
    assert!(system.register(0x5003, free_a).is_ok());
    assert!(system.register(0x5004, free_b).is_ok());
}

#[test]
fn batch_registration_with_all_conflicts_still_succeeds() {
    let mut system = Shortcuts::new();
    let a = HotkeyCombo::parse("Ctrl+Alt+Shift+F17").expect("a valid shortcut");
    let b = HotkeyCombo::parse("Ctrl+Alt+Shift+F16").expect("a valid shortcut");
    let _hold_a = system.register(0x5101, a).expect("free");
    let _hold_b = system.register(0x5102, b).expect("free");

    let set = system
        .register_all(vec![(0x5103, a), (0x5104, b)])
        .expect("conflicts alone are no failure");
    assert_eq!(set.registered(), 0);
    assert_eq!(set.conflicts().len(), 2);
}

#[test]
fn batch_registration_propagates_non_conflict_errors() {
    let mut system = Shortcuts::new();
    let combo = HotkeyCombo::parse("Ctrl+Alt+Shift+F15").expect("a valid shortcut");
    match system.register_all(vec![(0xC000, combo)]) {
        Err(Win32Error::InvalidHotkey(text)) => {
            assert_eq!(text, "id хоткея 49152 вне диапазона 0x0000..=0xBFFF")
        }
        other => panic!("{other:?}"),
    }
    assert!(request(-1, combo).is_err());
    assert_eq!(
        RegisteredHotkeySet::register_all(&vec![(1, combo)], &vec![SystemReply::Refused(-9)]),
        Err(Win32Error::Win32(-9))
    );
}

fn numbered(n: usize) -> Option<String> {
    Some(format!("Ctrl+Shift+{n}"))
}

fn hotkeys_by_number() -> Hotkeys {
    Hotkeys {
        edit_mode: None,
        toggle_all_stickers: None,
        mute_all: None,
        pin_focused_window: None,
        edit_groups_menu: None,
        delete_open_group: None,
        unpin_all: None,
        open_group_by_number: (1..=GROUP_OPEN_SLOTS).map(numbered).collect(),
    }
}

fn all_assigned() -> Hotkeys {
    Hotkeys {
        edit_mode: Some("Ctrl+Alt+S".to_string()),
        toggle_all_stickers: Some("Ctrl+Alt+H".to_string()),
        mute_all: Some("Ctrl+Alt+M".to_string()),
        pin_focused_window: Some("Ctrl+Alt+T".to_string()),
        edit_groups_menu: Some("Alt+Shift+G".to_string()),
        delete_open_group: Some("Ctrl+Alt+Shift+G".to_string()),
        unpin_all: Some("Ctrl+Alt+U".to_string()),
        ..hotkeys_by_number()
    }
}

#[test]
fn group_open_combos_defaults_cover_all_nine_groups() {
    let combos = group_open_combos(&hotkeys_by_number());
    assert_eq!(combos.len(), 9);
    for (i, (id, combo)) in combos.iter().enumerate() {
        assert_eq!(*id, GROUP_OPEN_HOTKEY_ID_BASE + i as i32);
        assert_eq!(combo.display_string(), format!("Ctrl+Shift+{}", i + 1));
    }
}

#[test]
fn group_open_combos_skips_unassigned_and_unparseable() {
    let mut hotkeys = hotkeys_by_number();
    hotkeys.open_group_by_number[2] = None;
    hotkeys.open_group_by_number[4] = Some("не хоткей".to_string());
    hotkeys.open_group_by_number[8] = None;

    let combos = group_open_combos(&hotkeys);
    let expect = [
        (8, "Ctrl+Shift+1"),
        (9, "Ctrl+Shift+2"),
        (11, "Ctrl+Shift+4"),
        (13, "Ctrl+Shift+6"),
        (14, "Ctrl+Shift+7"),
        (15, "Ctrl+Shift+8"),
    ];
    assert_eq!(combos.len(), expect.len());
    for ((id, combo), (exp_id, exp_combo)) in combos.iter().zip(expect) {
        assert_eq!(*id, exp_id);
        assert_eq!(combo.display_string(), exp_combo);
    }
}

#[test]
fn all_hotkey_ids_are_unique() {
    let combos = all_hotkey_combos(&all_assigned());
    let mut ids: Vec<i32> = combos.iter().map(|(id, _)| *id).collect();
    assert_eq!(ids.len(), 16);
    ids.extend([5, 6, 7, PIN_OPEN_GROUP_HOTKEY_ID, MITOSIS_HOTKEY_ID, WINDOW_CROP_HOTKEY_ID]);
    let count = ids.len();
    ids.sort();
    ids.dedup();
    assert_eq!(ids.len(), count);
}

#[test]
fn shortcuts_are_asked_for_under_their_numbers() {
    let combos = all_hotkey_combos(&all_assigned());
    let ids: Vec<i32> = combos.iter().map(|(id, _)| *id).collect();
    let mut expected = vec![
        EDIT_HOTKEY_ID,
        TOGGLE_ALL_HOTKEY_ID,
        MUTE_ALL_HOTKEY_ID,
        PIN_FOCUSED_HOTKEY_ID,
    ];
    expected.extend(8..=16);
    expected.extend([GROUP_MENU_HOTKEY_ID, GROUP_DELETE_HOTKEY_ID, UNPIN_ALL_HOTKEY_ID]);
    assert_eq!(ids, expected);
    assert_eq!(group_hotkey_combos(&all_assigned()).len(), 12);
}

#[test]
fn parse_accepts_alt_shift_s_and_arbitrary_modifier_pairs() {
    let s = HotkeyCombo::parse("Alt+Shift+S").expect("a valid shortcut");
    assert!(s.alt && s.shift && !s.ctrl && !s.win);
    assert_eq!(s.vk, 'S' as u32);
    assert_eq!(s.display_string(), "Alt+Shift+S");

    let f = HotkeyCombo::parse("Alt+Shift+F").expect("a valid shortcut");
    assert!(f.alt && f.shift && !f.ctrl && !f.win);
    assert_eq!(f.vk, 'F' as u32);
    assert_eq!(f.display_string(), "Alt+Shift+F");
}

#[test]
fn a_key_without_a_name_is_shown_by_its_number() {
    assert_eq!(keys(true, false, false, false, 0x21).display_string(), "Ctrl+VK0x21");
    assert_eq!(keys(false, false, false, false, 0xA).display_string(), "VK0x0A");
    assert_eq!(keys(true, true, true, true, 0x7B).display_string(), "Ctrl+Alt+Shift+Win+F12");
    assert!(HotkeyCombo::parse("Ctrl+VK0x21").is_err());
}

fn combo(s: &str) -> HotkeyCombo {
    HotkeyCombo::parse(s).expect("a valid shortcut")
}

#[test]
fn alt_shift_combo_warns_when_toggle_is_alt_shift() {
    let toggle = LayoutToggleConfig { alt_shift: true, ctrl_shift: false };
    let warning = check_risky_combo_with_toggle(combo("Alt+Shift+S"), toggle).expect("a warning");
    assert_eq!(warning.combo, "Alt+Shift+S");
    assert!(warning.explanation.contains("Alt+Shift"));
}

#[test]
fn alt_shift_combo_is_silent_when_toggle_is_off() {
    let toggle = LayoutToggleConfig { alt_shift: false, ctrl_shift: false };
    assert_eq!(check_risky_combo_with_toggle(combo("Alt+Shift+S"), toggle), None);
}

#[test]
fn ctrl_shift_combo_warns_when_toggle_is_ctrl_shift() {
    let toggle = LayoutToggleConfig { alt_shift: false, ctrl_shift: true };
    let warning = check_risky_combo_with_toggle(combo("Ctrl+Shift+1"), toggle).expect("a warning");
    assert_eq!(warning.combo, "Ctrl+Shift+1");
    assert!(warning.explanation.contains("Ctrl+Shift"));
    assert_eq!(warning.explanation, TOGGLE_CTRL_SHIFT);
}

#[test]
fn ctrl_shift_combo_is_silent_when_toggle_is_alt_shift() {
    let toggle = LayoutToggleConfig { alt_shift: true, ctrl_shift: false };
    assert_eq!(check_risky_combo_with_toggle(combo("Ctrl+Shift+1"), toggle), None);
}

#[test]
fn three_modifier_combo_warns_if_it_contains_toggle_pair() {
    let toggle = LayoutToggleConfig { alt_shift: true, ctrl_shift: false };
    let warning =
        check_risky_combo_with_toggle(combo("Ctrl+Alt+Shift+S"), toggle).expect("a warning");
    assert!(warning.explanation.contains("Alt+Shift"));
}

#[test]
fn any_win_combo_warns() {
    let toggle = LayoutToggleConfig { alt_shift: false, ctrl_shift: false };
    for s in ["Win+S", "Win+F2", "Win+1", "Win+Shift+F12"] {
        let warning =
            check_risky_combo_with_toggle(combo(s), toggle).unwrap_or_else(|| panic!("{s}"));
        assert!(warning.explanation.contains("Win"));
    }
}

#[test]
fn toggle_warning_has_priority_over_win_warning() {
    let toggle = LayoutToggleConfig { alt_shift: true, ctrl_shift: false };
    let warning =
        check_risky_combo_with_toggle(combo("Win+Alt+Shift+S"), toggle).expect("a warning");
    assert!(warning.explanation.contains("Alt+Shift назначен"));
    assert!(!warning.explanation.contains("клавишей Win"));
}

#[test]
fn f12_combo_warns() {
    let toggle = LayoutToggleConfig { alt_shift: false, ctrl_shift: false };
    for s in ["Ctrl+F12", "Ctrl+Shift+F12"] {
        let warning =
            check_risky_combo_with_toggle(combo(s), toggle).unwrap_or_else(|| panic!("{s}"));
        assert!(warning.explanation.contains("F12"));
        assert_eq!(warning.explanation, F12_RESERVED);
    }
}

#[test]
fn safe_combos_do_not_warn() {
    let toggle = LayoutToggleConfig { alt_shift: false, ctrl_shift: false };
    for s in ["Ctrl+S", "Alt+S", "Ctrl+Alt+S", "Ctrl+Shift+F11", "Shift+F5", "Ctrl+F1"] {
        assert_eq!(check_risky_combo_with_toggle(combo(s), toggle), None, "{s}");
    }
}

/// The bytes of a text value as the registry holds it, in a buffer of the size
/// that is read into.
fn stored(value: &str) -> ValueRead {
    let mut data: Vec<u16> = value.encode_utf16().chain(std::iter::once(0)).collect();
    let size = data.len() as u32 * 2;
    data.resize(32, 0xAAAA);
    read_value(0, 1, &data, size)
}

fn values(list: &[(&str, &str)]) -> Result<ToggleReads, u32> {
    let read = |name: &str| match list.iter().find(|(n, _)| *n == name) {
        Some((_, value)) => stored(value),
        None => read_value(2, 0, &vec![0; 32], 64),
    };
    Ok(ToggleReads {
        hotkey: read("Hotkey"),
        language_hotkey: read("Language Hotkey"),
        layout_hotkey: read("Layout Hotkey"),
    })
}

fn toggles(alt_shift: bool, ctrl_shift: bool) -> LayoutToggleConfig {
    LayoutToggleConfig { alt_shift, ctrl_shift }
}

#[test]
fn missing_registry_key_means_default_alt_shift_toggle() {
    assert_eq!(read_layout_toggle(&Err(2)), toggles(true, false));
    assert_eq!(LayoutToggleConfig::defaults(), toggles(true, false));
}

#[test]
fn registry_values_1_enable_alt_shift_toggle() {
    let key = values(&[("Hotkey", "1"), ("Language Hotkey", "1"), ("Layout Hotkey", "1")]);
    assert_eq!(read_layout_toggle(&key), toggles(true, false));
}

#[test]
fn registry_values_2_enable_ctrl_shift_toggle() {
    let key = values(&[("Hotkey", "2"), ("Language Hotkey", "2"), ("Layout Hotkey", "2")]);
    assert_eq!(read_layout_toggle(&key), toggles(false, true));
}

#[test]
fn registry_values_3_disable_both_toggles() {
    let key = values(&[("Hotkey", "3"), ("Language Hotkey", "3"), ("Layout Hotkey", "3")]);
    assert_eq!(read_layout_toggle(&key), toggles(false, false));
}

#[test]
fn mixed_registry_values_combine_both_toggles() {
    let key = values(&[("Hotkey", "1"), ("Layout Hotkey", "2")]);
    assert_eq!(read_layout_toggle(&key), toggles(true, true));
}

#[test]
fn registry_value_with_surrounding_spaces_is_parsed() {
    let key = values(&[("Hotkey", "3"), ("Language Hotkey", " 2 "), ("Layout Hotkey", "3")]);
    assert_eq!(read_layout_toggle(&key), toggles(false, true));
}

#[test]
fn unknown_registry_value_is_ignored() {
    let key = values(&[("Hotkey", "3"), ("Language Hotkey", "7"), ("Layout Hotkey", "3")]);
    assert_eq!(read_layout_toggle(&key), toggles(false, false));
}

#[test]
fn partially_configured_key_still_defaults_missing_values_to_alt_shift() {
    let key = values(&[("Language Hotkey", "2")]);
    assert_eq!(read_layout_toggle(&key), toggles(true, true));
}

#[test]
fn present_key_without_values_keeps_measured_defaults() {
    assert_eq!(read_layout_toggle(&values(&[])), toggles(true, false));
}

#[test]
fn a_value_that_cannot_be_read_warns_by_the_default() {
    assert_eq!(read_value(5, 1, &vec![0x31; 32], 2), Err(5));
    assert_eq!(read_value(0, 4, &vec![0x31; 32], 4), Ok(None));
    assert_eq!(read_value(0, 1, &vec![0x31; 2], 64), Ok(Some("11".to_string())));
    assert_eq!(read_value(0, 1, &vec![0x131, 0], 4), Ok(Some("1".to_string())));
    let three = || Ok(Some("3".to_string()));
    let two = || Ok(Some("2".to_string()));
    let reads = Ok(ToggleReads { hotkey: Err(5), language_hotkey: Err(5), layout_hotkey: Err(5) });
    assert_eq!(read_layout_toggle(&reads), toggles(true, false));
    let reads = Ok(ToggleReads { hotkey: Err(5), language_hotkey: three(), layout_hotkey: two() });
    assert_eq!(read_layout_toggle(&reads), toggles(true, true));
    let reads = Ok(ToggleReads { hotkey: three(), language_hotkey: Err(5), layout_hotkey: three() });
    assert_eq!(read_layout_toggle(&reads), toggles(true, false));
    let reads = Ok(ToggleReads { hotkey: three(), language_hotkey: three(), layout_hotkey: Err(5) });
    assert_eq!(read_layout_toggle(&reads), toggles(true, false));
    assert!(check_risky_combo(combo("Alt+Shift+S"), &reads).is_some());
}

#[test]
fn a_risk_is_told_by_what_the_registry_says() {
    let off = values(&[("Hotkey", "3"), ("Language Hotkey", "3"), ("Layout Hotkey", "3")]);
    assert_eq!(check_risky_combo(combo("Alt+Shift+S"), &off), None);
    assert!(check_risky_combo(combo("Alt+Shift+S"), &Err(2)).is_some());
}

fn keys(ctrl: bool, alt: bool, shift: bool, win: bool, vk: u32) -> HotkeyCombo {
    HotkeyCombo { ctrl, alt, shift, win, vk }
}

fn held(ctrl: bool, alt: bool, shift: bool, win: bool) -> HeldModifiers {
    HeldModifiers { ctrl, alt, shift, win }
}

const NOTHING_HELD: HeldModifiers =
    HeldModifiers { ctrl: false, alt: false, shift: false, win: false };

#[test]
fn empty_set_never_matches() {
    assert_eq!(match_held(&[], 'M' as u32, NOTHING_HELD), None);
}

#[test]
fn a_combo_with_modifiers_needs_them_all() {
    let set = [(3, keys(true, true, false, false, 'M' as u32))];
    assert_eq!(match_held(&set, 'M' as u32, held(true, true, false, false)), Some(3));
    assert_eq!(match_held(&set, 'M' as u32, NOTHING_HELD), None);
    assert_eq!(match_held(&set, 'M' as u32, held(true, true, true, false)), None);
    assert_eq!(match_held(&set, 'M' as u32, held(true, false, false, false)), None);
}

#[test]
fn a_bare_key_matches_only_with_no_modifier_held() {
    let set = [(5, keys(false, false, false, false, 0x21))];
    assert_eq!(match_held(&set, 0x21, NOTHING_HELD), Some(5));
    assert_eq!(match_held(&set, 0x21, held(true, false, false, false)), None);
    assert_eq!(match_held(&set, 0x21, held(false, false, false, true)), None);
    assert_eq!(match_held(&set, 0x22, NOTHING_HELD), None);
}

#[test]
fn setting_an_empty_set_is_a_no_op_and_leaves_no_hook() {
    let mut hook = HookState::new();
    assert_eq!(hook.set_fallback_combos(Vec::new()), HookOp::Keep);
    assert!(!hook.hooked);
}

#[test]
fn a_non_empty_set_installs_the_hook_and_clear_removes_it() {
    let mut hook = HookState::new();
    let op = hook.set_fallback_combos(vec![(3, keys(true, true, false, false, 'M' as u32))]);
    assert_eq!(op, HookOp::Install);
    hook.installed(true);
    assert_eq!(hook.combos.len(), 1);
    assert!(hook.hooked);
    assert_eq!(hook.clear(), HookOp::Remove);
    assert!(hook.combos.is_empty());
    assert!(!hook.hooked);
}

#[test]
fn a_hook_that_could_not_be_set_is_tried_again() {
    let mut hook = HookState::new();
    let set = || vec![(3, keys(true, true, false, false, 'M' as u32))];
    assert_eq!(hook.set_fallback_combos(set()), HookOp::Install);
    hook.installed(false);
    assert!(!hook.hooked);
    assert_eq!(hook.combos.len(), 1);
    assert_eq!(hook.set_fallback_combos(set()), HookOp::Install);
    hook.installed(true);
    assert_eq!(hook.set_fallback_combos(set()), HookOp::Keep);
    assert_eq!(hook.set_fallback_combos(vec![]), HookOp::Remove);
    assert_eq!(hook.clear(), HookOp::Keep);
}

#[test]
fn the_hook_keeps_presses_of_its_own_and_nothing_else() {
    let mut hook = HookState::new();
    hook.set_fallback_combos(vec![
        (3, keys(true, false, false, false, 'M' as u32)),
        (4, keys(true, false, false, false, 'M' as u32)),
    ]);
    hook.installed(true);
    let ctrl = held(true, false, false, false);
    assert_eq!(hook.match_combo('M' as u32, ctrl), Some(3));
    assert_eq!(hook.on_call(HC_ACTION, WM_KEYDOWN, 'M' as u32, ctrl), Some(3));
    assert_eq!(hook.on_call(HC_ACTION, WM_SYSKEYDOWN, 'M' as u32, ctrl), Some(3));
    assert_eq!(hook.on_call(HC_ACTION, WM_KEYUP, 'M' as u32, ctrl), None);
    assert_eq!(hook.on_call(-1, WM_KEYDOWN, 'M' as u32, ctrl), None);
    assert_eq!(hook.on_call(HC_ACTION, WM_KEYDOWN, 'N' as u32, ctrl), None);
}
