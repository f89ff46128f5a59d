use rst_win32::keyboard_guard::{
    chord_from, initial_mods, modifier_bit, set_swallow_set, should_swallow, watch_modifier_release,
    watchdog_tick, watched_kind, Chord, GuardState, HeldKeys, HookStep, KeyMessage, WatchedModifier,
    MASK_VK, M_LALT, M_LCTRL, M_LSHIFT, M_LWIN, M_RALT, M_RCTRL, M_RSHIFT, M_RWIN,
};
use rst_win32::winapi::{VK_LCONTROL, VK_LMENU, VK_LWIN, VK_RCONTROL, WM_KEYDOWN, WM_KEYUP};

#[test]
fn modifier_bits_cover_both_sides() {
    assert_eq!(modifier_bit(VK_LCONTROL), Some(M_LCTRL));
    assert_eq!(modifier_bit(VK_RCONTROL), Some(M_RCTRL));
    assert_eq!(modifier_bit(VK_LWIN), Some(M_LWIN));
    assert!(modifier_bit(b'A' as u32).is_none());
}

#[test]
fn a_chord_reads_left_and_right_modifiers_the_same() {
    let left = chord_from(b'H' as u32, M_LSHIFT | M_LALT);
    let right = chord_from(b'H' as u32, M_RSHIFT | M_RALT);
    assert_eq!(left, right);
    assert!(left.shift && left.alt);
    assert!(!left.ctrl && !left.win);
}

#[test]
fn releasing_one_side_keeps_the_other_held() {
    let mods = (M_LSHIFT | M_RSHIFT) & !M_RSHIFT;
    assert!(chord_from(b'A' as u32, mods).shift);
}

#[test]
fn each_modifier_maps_to_both_of_its_keys() {
    assert_eq!(WatchedModifier::Alt.bits(), M_LALT | M_RALT);
    assert_eq!(WatchedModifier::Win.bits(), M_LWIN | M_RWIN);
}

#[test]
fn a_bit_pair_maps_back_to_its_modifier() {
    for kind in [
        WatchedModifier::Ctrl,
        WatchedModifier::Alt,
        WatchedModifier::Shift,
        WatchedModifier::Win,
    ] {
        assert_eq!(watched_kind(kind.bits()), Some(kind));
    }
    assert!(watched_kind(0).is_none());
    assert!(watched_kind(M_LALT).is_none());
}

#[test]
fn releasing_one_of_two_alt_keys_does_not_count_as_released() {
    let after = (M_LALT | M_RALT) & !M_RALT;
    assert_ne!(after & WatchedModifier::Alt.bits(), 0);
}

#[test]
fn an_empty_table_swallows_nothing() {
    let mut table = Vec::new();
    set_swallow_set(&mut table, Vec::new());
    let chord = Chord { vk: b'H' as u32, alt: true, ..Default::default() };
    assert!(!should_swallow(Some(&table), chord));
    assert!(!should_swallow(None, chord));
}

#[test]
fn a_registered_chord_is_swallowed_and_a_similar_one_is_not() {
    let mut table = Vec::new();
    let alt_h = Chord { vk: b'H' as u32, alt: true, ..Default::default() };
    set_swallow_set(&mut table, vec![alt_h]);
    assert!(should_swallow(Some(&table), alt_h));
    assert!(!should_swallow(Some(&table), Chord { shift: true, ..alt_h }));
    assert!(!should_swallow(Some(&table), Chord { vk: b'J' as u32, ..alt_h }));
}

#[test]
fn the_table_can_be_replaced_while_it_is_in_use() {
    let mut table = Vec::new();
    let a = Chord { vk: b'A' as u32, ctrl: true, ..Default::default() };
    let b = Chord { vk: b'B' as u32, ctrl: true, ..Default::default() };
    set_swallow_set(&mut table, vec![a]);
    assert!(should_swallow(Some(&table), a));
    set_swallow_set(&mut table, vec![b]);
    assert!(!should_swallow(Some(&table), a));
    assert!(should_swallow(Some(&table), b));
}

fn key(vk: u32, msg: u32) -> KeyMessage {
    KeyMessage { code: 0, injected: false, vk, msg }
}

#[test]
fn a_kept_press_keeps_its_release() {
    let alt_h = Chord { vk: b'H' as u32, alt: true, ..Default::default() };
    let table = vec![alt_h];
    let mut guard = GuardState::new(0);
    assert_eq!(guard.on_key(&key(VK_LMENU, WM_KEYDOWN), Some(&table), 0), HookStep::Pass);
    let step = guard.on_key(&key(b'H' as u32, WM_KEYDOWN), Some(&table), 0);
    assert_eq!(step, HookStep::Offer(alt_h));
    assert!(guard.on_delivery(alt_h, true).is_some());
    assert_eq!(
        guard.on_key(&key(b'H' as u32, WM_KEYUP), Some(&table), 0),
        HookStep::Swallow
    );
    // The next release belongs to no kept press.
    assert_eq!(
        guard.on_key(&key(b'H' as u32, WM_KEYUP), Some(&table), 0),
        HookStep::Pass
    );
    assert_eq!(guard.on_key(&key(VK_LMENU, WM_KEYUP), Some(&table), 0), HookStep::Pass);
    assert_eq!(
        guard.on_key(&key(b'H' as u32, WM_KEYDOWN), Some(&table), 0),
        HookStep::Pass
    );
}

#[test]
fn a_chord_that_could_not_be_reported_passes() {
    let alt_h = Chord { vk: b'H' as u32, alt: true, ..Default::default() };
    let table = vec![alt_h];
    let mut guard = GuardState::new(M_LALT);
    let step = guard.on_key(&key(b'H' as u32, WM_KEYDOWN), Some(&table), 0);
    assert_eq!(step, HookStep::Offer(alt_h));
    assert_eq!(guard.on_delivery(alt_h, false), None);
    assert_eq!(
        guard.on_key(&key(b'H' as u32, WM_KEYUP), Some(&table), 0),
        HookStep::Pass
    );
}

#[test]
fn keys_that_were_not_pressed_by_hand_pass() {
    let alt_h = Chord { vk: b'H' as u32, alt: true, ..Default::default() };
    let table = vec![alt_h];
    let mut guard = GuardState::new(M_LALT);
    let injected = KeyMessage { injected: true, ..key(b'H' as u32, WM_KEYDOWN) };
    assert_eq!(guard.on_key(&injected, Some(&table), 0), HookStep::Pass);
    let foreign = KeyMessage { code: -1, ..key(b'H' as u32, WM_KEYDOWN) };
    assert_eq!(guard.on_key(&foreign, Some(&table), 0), HookStep::Pass);
}

#[test]
fn the_release_of_a_watched_modifier_is_reported_when_both_keys_are_up() {
    let watched = watch_modifier_release(Some(WatchedModifier::Alt));
    let mut guard = GuardState::new(M_LALT | M_RALT);
    let up_right = key(0xA5, WM_KEYUP);
    assert_eq!(guard.on_key(&up_right, None, watched), HookStep::Pass);
    assert_eq!(
        guard.on_key(&key(VK_LMENU, WM_KEYUP), None, watched),
        HookStep::PassAndReport(WatchedModifier::Alt)
    );
    assert_eq!(watch_modifier_release(None), 0);
}

#[test]
fn modifiers_that_are_down_at_the_start_count() {
    let held = HeldKeys {
        left_ctrl: true,
        right_ctrl: false,
        left_alt: false,
        right_alt: true,
        left_shift: false,
        right_shift: false,
        left_win: true,
        right_win: false,
    };
    assert_eq!(initial_mods(&held), M_LCTRL | M_RALT | M_LWIN);
}

#[test]
fn the_masking_key_is_none_that_can_be_typed() {
    assert_eq!(MASK_VK, 0x87);
}

#[test]
fn a_hook_that_sees_nothing_while_there_is_input_is_set_again() {
    let mut last = 0;
    // Input goes on, the hook has seen none for a while, and messages flow.
    assert!(watchdog_tick(&mut last, 20_000, 19_999, 10_000, 19_999));
    assert_eq!(last, 20_000);
    // Not again at once.
    assert!(!watchdog_tick(&mut last, 21_000, 20_999, 10_000, 20_999));
    // Nor while the hook sees what there is.
    let mut last = 0;
    assert!(!watchdog_tick(&mut last, 20_000, 19_999, 19_999, 19_999));
    assert_eq!(last, 0);
}
