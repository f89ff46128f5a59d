use rst_win32::hotkey::registration::SystemReply;
use rst_win32::hotkey::{HotkeyCombo, HotkeyRegistrationConflict, RegisteredHotkeySet};
use rst_win32::input::{CursorShape, InputEvent, Modifiers, Point};
use rst_win32::model::{Edges, MonitorId, Rect};
use rst_win32::monitors::MonitorInfo;
use rst_win32::overlay::codes::{
    cursor_shape_from_wparam, cursor_shape_to_wparam, is_control, key_event_press,
    power_broadcast_event, session_change_event, ROTATE_WPARAM_BASE,
};
use rst_win32::overlay::hotkeys::{
    conflicting_combos, events_of_conflicts, hotkey_event, hotkey_name_of, initial_combos,
    media_combos, reloaded_event, HotkeyDesk, HotkeysInstallReport,
};
use rst_win32::overlay::messages::{
    Message, Moment, OverlayAction, OverlayState, WM_APP_EDIT_CURSOR, WM_APP_INPUT_POLICY,
    WM_APP_MEDIA_HOTKEYS, WM_APP_RELEASE_CAPTURE, WM_APP_REREGISTER_HOTKEYS,
};
use rst_win32::overlay::style::{
    capture_affinity, handle_dpi_changed, hole_region, is_click_through, masks_of_policy,
    plan_window, screen_bounds, set_capture_affinity, set_exstyle_bits, set_hover_click_target,
    window_size, DpiChange, HoleRegion, Masks,
};
use rst_win32::overlay::topmost::{
    covers_overlay, intruder_above, raise_above_pinned, WindowFacts, TOPMOST_MIN_INTRUDER_PX,
    TOPMOST_TIMER_ID,
    TOPMOST_WAR_STRIKES,
};
use rst_win32::overlay::{
    char_from_wm_char, intruder_covers, HotkeyName, OverlayEvent, OverlayInputPolicy, TopmostGuard,
};
use rst_win32::winapi::{
    HTCLIENT, HTTRANSPARENT, PBT_APMBATTERYLOW, PBT_APMQUERYSUSPEND, PBT_APMRESUMEAUTOMATIC,
    PBT_APMRESUMESUSPEND, PBT_APMSUSPEND, VK_ESCAPE, WM_CAPTURECHANGED, WM_CHAR, WM_CLOSE,
    WM_DESTROY, WM_DISPLAYCHANGE, WM_DPICHANGED, WM_KEYDOWN, WM_KEYUP, WM_LBUTTONDOWN,
    WM_LBUTTONUP, WM_MOUSEMOVE, WM_MOUSEWHEEL, WM_NCDESTROY, WM_NCHITTEST, WM_POWERBROADCAST,
    WM_SETCURSOR, WM_TIMER, WM_WTSSESSION_CHANGE, WS_EX_LAYERED, WS_EX_NOACTIVATE,
    WS_EX_NOREDIRECTIONBITMAP, WS_EX_TOOLWINDOW, WS_EX_TOPMOST, WS_EX_TRANSPARENT, WS_POPUP,
    WTS_SESSION_LOCK, WTS_SESSION_LOGON, WTS_SESSION_UNLOCK,
};
use rst_win32::window::Reply;
use rst_win32::Win32Error;

fn edges(left: i32, top: i32, right: i32, bottom: i32) -> Edges {
    Edges { left, top, right, bottom }
}

#[test]
fn tiny_helper_windows_are_not_intruders() {
    let ours = (0, 0, 2560, 1440);
    assert!(!intruder_covers(ours, (0, 0, 1, 1)));
    assert!(!intruder_covers(ours, (0, 0, 2560, TOPMOST_MIN_INTRUDER_PX - 1)));
    assert!(intruder_covers(ours, (0, 0, 2560, TOPMOST_MIN_INTRUDER_PX)));
}

#[test]
fn a_window_on_another_monitor_is_not_an_intruder() {
    let ours = (0, 0, 2560, 1440);
    assert!(!intruder_covers(ours, (-1920, 357, 0, 1437)));
    assert!(!intruder_covers(ours, (2560, 0, 3000, 400)));
    assert!(intruder_covers(ours, (2400, 0, 3000, 400)));
}

#[test]
fn edges_at_the_end_of_the_range_are_no_trouble() {
    let all = (i32::MIN, i32::MIN, i32::MAX, i32::MAX);
    assert!(intruder_covers((0, 0, 10, 10), all));
    assert!(!intruder_covers(all, (i32::MAX, 0, i32::MIN, 100)));
}

#[test]
fn topmost_guard_raises_once_and_calms_down() {
    let mut guard = TopmostGuard::default();
    assert!(guard.decide(Some(0x1234)));
    assert!(!guard.decide(None));
    assert!(guard.decide(Some(0x1234)));
}

#[test]
fn topmost_guard_gives_up_on_a_window_that_keeps_winning() {
    let mut guard = TopmostGuard::default();
    for attempt in 1..=TOPMOST_WAR_STRIKES {
        assert!(guard.decide(Some(0x1234)), "{attempt}");
    }
    assert!(!guard.decide(Some(0x1234)));
    assert!(!guard.decide(Some(0x1234)));
}

#[test]
fn topmost_guard_surrender_is_per_window() {
    let mut guard = TopmostGuard::default();
    for _ in 0..=TOPMOST_WAR_STRIKES {
        guard.decide(Some(0x1234));
    }
    assert!(!guard.decide(Some(0x1234)));
    assert!(guard.decide(Some(0x5678)));
    assert!(!guard.decide(None));
    assert!(guard.decide(Some(0x1234)));
}

fn facts(hwnd: usize, pid: u32, edges: Edges) -> WindowFacts {
    WindowFacts { hwnd, visible: true, pid, edges: Some(edges), cloaked: Some(0) }
}

#[test]
fn the_nearest_foreign_window_in_view_is_the_intruder() {
    let ours = edges(0, 0, 100, 100);
    let over = facts(1, 7, edges(10, 10, 50, 50));
    assert!(covers_overlay(&over, 9, ours));
    assert!(!covers_overlay(&over, 7, ours));
    assert!(!covers_overlay(&WindowFacts { visible: false, ..over }, 9, ours));
    assert!(!covers_overlay(&WindowFacts { edges: None, ..over }, 9, ours));
    assert!(!covers_overlay(&WindowFacts { cloaked: Some(2), ..over }, 9, ours));
    assert!(covers_overlay(&WindowFacts { cloaked: None, ..over }, 9, ours));
    let list = vec![
        WindowFacts { hwnd: 3, visible: false, ..over },
        WindowFacts { hwnd: 4, ..over },
        WindowFacts { hwnd: 5, ..over },
    ];
    assert_eq!(intruder_above(&list, 9, ours), Some(4));
    assert_eq!(intruder_above(&list, 7, ours), None);
    assert_eq!(intruder_above(&vec![], 9, ours), None);
}

#[test]
fn a_pinned_window_above_is_risen_over() {
    assert!(raise_above_pinned(&vec![5, 6, 7], &vec![1, 7]));
    assert!(!raise_above_pinned(&vec![5, 6], &vec![1, 7]));
    assert!(!raise_above_pinned(&vec![5, 6], &vec![]));
}

#[test]
fn wm_char_returns_plain_characters() {
    let mut pending = None;
    assert_eq!(char_from_wm_char(b'a' as u16, &mut pending), Some('a'));
    assert_eq!(char_from_wm_char(0x0416, &mut pending), Some('\u{416}'));
    assert_eq!(pending, None);
}

#[test]
fn wm_char_assembles_surrogate_pair() {
    let mut pending = None;
    assert_eq!(char_from_wm_char(0xD83D, &mut pending), None);
    assert_eq!(pending, Some(0xD83D));
    assert_eq!(char_from_wm_char(0xDE00, &mut pending), Some('\u{1F600}'));
    assert_eq!(pending, None);
}

#[test]
fn wm_char_recovers_from_a_broken_pair() {
    let mut pending = Some(0xD83Du16);
    assert_eq!(char_from_wm_char(b'x' as u16, &mut pending), Some('x'));
    assert_eq!(pending, None);
}

#[test]
fn a_second_half_alone_is_dropped() {
    let mut pending = None;
    assert_eq!(char_from_wm_char(0xDE00, &mut pending), None);
    assert_eq!(pending, None);
    let mut pending = Some(0xD83Du16);
    assert_eq!(char_from_wm_char(0xD83E, &mut pending), None);
    assert_eq!(pending, Some(0xD83E));
}

#[test]
fn control_characters_are_those_of_the_standard_library() {
    for n in 0..=0x10FFFFu32 {
        if let Some(c) = char::from_u32(n) {
            assert_eq!(is_control(c), c.is_control(), "U+{n:04X}");
        }
    }
}

#[test]
fn cursor_shape_wparam_round_trips_fixed_shapes() {
    for shape in [
        CursorShape::Arrow,
        CursorShape::Move,
        CursorShape::SizeNS,
        CursorShape::SizeWE,
        CursorShape::SizeNESW,
        CursorShape::SizeNWSE,
    ] {
        assert_eq!(cursor_shape_from_wparam(cursor_shape_to_wparam(shape)), Some(shape));
    }
}

#[test]
fn cursor_shape_wparam_round_trips_rotate_angles() {
    for angle in [0, 45, 90, 180, 270, 359, -45, -135, 400i32] {
        let shape = CursorShape::Rotate(angle);
        let decoded = cursor_shape_from_wparam(cursor_shape_to_wparam(shape));
        match decoded {
            Some(CursorShape::Rotate(decoded_angle)) => {
                assert_eq!(decoded_angle, angle.rem_euclid(360))
            }
            other => panic!("{other:?}"),
        }
    }
}

#[test]
fn cursor_shape_from_wparam_rejects_out_of_range() {
    assert_eq!(cursor_shape_from_wparam(6), Some(CursorShape::Cross));
    assert_eq!(cursor_shape_from_wparam(7), None);
    assert_eq!(cursor_shape_from_wparam(999), None);
    assert_eq!(cursor_shape_from_wparam(ROTATE_WPARAM_BASE + 359 + 1), None);
}

fn test_bounds() -> Rect {
    Rect { x: 1920, y: 120, w: 1280, h: 1024 }
}

#[test]
fn window_uses_given_bounds() {
    let plan = plan_window(test_bounds()).expect("a window");
    assert_eq!((plan.x, plan.y), (1920, 120));
    assert_eq!((plan.w, plan.h), (1280, 1024));
    assert_eq!(plan.style, WS_POPUP);
    assert_eq!(
        plan.ex_style,
        WS_EX_TOPMOST
            | WS_EX_TOOLWINDOW
            | WS_EX_NOACTIVATE
            | WS_EX_TRANSPARENT
            | WS_EX_NOREDIRECTIONBITMAP
            | WS_EX_LAYERED
    );
}

#[test]
fn bounds_without_an_extent_make_no_window() {
    let flat = Rect { h: 0, ..test_bounds() };
    assert_eq!(plan_window(flat), Err(Win32Error::OverlayWindowCreateFailed));
    let thin = Rect { w: 0, ..test_bounds() };
    assert_eq!(plan_window(thin), Err(Win32Error::OverlayWindowCreateFailed));
}

/// The extended style of a window, as the actions leave it.
fn style_after(ex: u32, policies: Vec<OverlayInputPolicy>) -> u32 {
    let mut state = OverlayState::new();
    let mut ex = ex;
    for policy in policies {
        let mut now = Moment::plain(ex);
        now.policy = Some(policy);
        let reaction = state.on_message(&message(WM_APP_INPUT_POLICY, 0, 0), now);
        assert_eq!(reaction.reply, Reply::Value(0));
        for action in reaction.actions {
            if let OverlayAction::Style(masks) = action {
                ex = masks.apply(ex);
            }
        }
    }
    ex
}

fn new_window() -> u32 {
    plan_window(test_bounds()).expect("a window").ex_style
}

#[test]
fn input_policy_interactive_clears_transparency_and_noactivate() {
    let ex = style_after(
        new_window(),
        vec![OverlayInputPolicy::Interactive { take_focus: false }],
    );
    assert_eq!(ex & WS_EX_TRANSPARENT, 0);
    assert_eq!(ex & WS_EX_NOACTIVATE, 0);
    assert_ne!(ex & WS_EX_TOPMOST, 0);
}

#[test]
fn input_policy_transparent_restores_both_bits() {
    let ex = style_after(
        new_window(),
        vec![
            OverlayInputPolicy::Interactive { take_focus: false },
            OverlayInputPolicy::Transparent,
        ],
    );
    assert_ne!(ex & WS_EX_TRANSPARENT, 0);
    assert_ne!(ex & WS_EX_NOACTIVATE, 0);
    assert_eq!(ex, new_window());
}

#[test]
fn input_policy_hit_rects_keeps_noactivate() {
    let ex = style_after(
        new_window(),
        vec![OverlayInputPolicy::HitRects(vec![(10, 10, 50, 50)])],
    );
    assert_eq!(ex & WS_EX_TRANSPARENT, 0);
    assert_ne!(ex & WS_EX_NOACTIVATE, 0);
}

#[test]
fn input_policy_hover_target_matches_old_hover_click_target() {
    let ex = style_after(new_window(), vec![OverlayInputPolicy::HoverTarget]);
    assert_eq!(ex & WS_EX_TRANSPARENT, 0);
    assert_ne!(ex & WS_EX_NOACTIVATE, 0);
    assert_eq!(ex, set_hover_click_target(true).apply(new_window()));
}

#[test]
fn input_policy_empty_hit_rects_means_transparent() {
    let ex = style_after(
        new_window(),
        vec![
            OverlayInputPolicy::Interactive { take_focus: false },
            OverlayInputPolicy::HitRects(Vec::new()),
        ],
    );
    assert_ne!(ex & WS_EX_TRANSPARENT, 0);
}

#[test]
fn set_click_through_toggles_exstyle_bits() {
    let initial = new_window();
    assert_ne!(initial & WS_EX_TRANSPARENT, 0);
    assert!(is_click_through(initial));

    let editing = set_exstyle_bits(false).apply(initial);
    assert_eq!(editing & WS_EX_TRANSPARENT, 0);
    assert_eq!(editing & WS_EX_NOACTIVATE, 0);
    assert!(!is_click_through(editing));

    let restored = set_exstyle_bits(true).apply(editing);
    assert_ne!(restored & WS_EX_TRANSPARENT, 0);
    assert_ne!(restored & WS_EX_NOACTIVATE, 0);
}

#[test]
fn set_capture_affinity_round_trips_and_verifies() {
    assert_eq!(capture_affinity(true), 0x11);
    assert_eq!(set_capture_affinity(true, Ok(()), Ok(0x11)), Ok(true));
    assert_eq!(capture_affinity(false), 0);
    assert_eq!(set_capture_affinity(false, Ok(()), Ok(0)), Ok(true));
    assert_eq!(set_capture_affinity(true, Ok(()), Ok(0)), Ok(false));
    assert_eq!(set_capture_affinity(true, Err(-3), Ok(0x11)), Err(Win32Error::Win32(-3)));
    assert_eq!(set_capture_affinity(true, Ok(()), Err(-4)), Err(Win32Error::Win32(-4)));
}

#[test]
fn set_interactive_toggles_same_bits_as_click_through() {
    let editing = set_exstyle_bits(!true).apply(new_window());
    assert_eq!(editing & WS_EX_TRANSPARENT, 0);
    assert_eq!(editing & WS_EX_NOACTIVATE, 0);

    let restored = set_exstyle_bits(!false).apply(editing);
    assert_ne!(restored & WS_EX_TRANSPARENT, 0);
    assert_ne!(restored & WS_EX_NOACTIVATE, 0);
}

#[test]
fn create_covers_system_screen() {
    assert_eq!(screen_bounds(2560, 1440), Rect { x: 0, y: 0, w: 2560, h: 1440 });
    assert_eq!(screen_bounds(-1, 1440), Rect { x: 0, y: 0, w: 0, h: 1440 });
    assert_eq!(window_size(Some(edges(5, 5, 105, 55))), (100, 50));
    assert_eq!(window_size(Some(edges(5, 5, 4, 55))), (0, 50));
    assert_eq!(window_size(None), (0, 0));
}

#[test]
fn every_policy_has_its_masks() {
    let both = WS_EX_TRANSPARENT | WS_EX_NOACTIVATE;
    assert_eq!(
        masks_of_policy(&OverlayInputPolicy::Transparent),
        Masks { set: both, clear: 0 }
    );
    assert_eq!(
        masks_of_policy(&OverlayInputPolicy::Interactive { take_focus: true }),
        Masks { set: 0, clear: both }
    );
    let caught = Masks { set: WS_EX_NOACTIVATE, clear: WS_EX_TRANSPARENT };
    assert_eq!(masks_of_policy(&OverlayInputPolicy::HoverTarget), caught);
    assert_eq!(masks_of_policy(&OverlayInputPolicy::HitRects(vec![(0, 0, 1, 1)])), caught);
}

#[test]
fn a_hole_is_cut_where_it_meets_the_window() {
    let window = edges(100, 100, 300, 200);
    assert_eq!(
        hole_region(window, Some(edges(50, 120, 150, 400))),
        Some(HoleRegion { w: 200, h: 100, cut: edges(0, 20, 50, 100) })
    );
    assert_eq!(hole_region(window, Some(edges(0, 0, 100, 400))), None);
    assert_eq!(hole_region(window, None), None);
}

const EDIT: i32 = 1;
const TOGGLE_ALL: i32 = 2;
const MUTE_ALL: i32 = 3;
const PIN_FOCUSED: i32 = 4;

#[test]
fn hotkey_name_maps_global_ids_and_ignores_media_and_group_ids() {
    assert_eq!(hotkey_name_of(EDIT), Some(HotkeyName::EditMode));
    assert_eq!(hotkey_name_of(TOGGLE_ALL), Some(HotkeyName::ToggleAllStickers));
    assert_eq!(hotkey_name_of(MUTE_ALL), Some(HotkeyName::MuteAll));
    assert_eq!(hotkey_name_of(PIN_FOCUSED), Some(HotkeyName::PinFocusedWindow));
    assert_eq!(hotkey_name_of(21), Some(HotkeyName::WindowMitosis));
    assert_eq!(hotkey_name_of(22), Some(HotkeyName::WindowCrop));
    for foreign in [5, 17, 19, 8] {
        assert_eq!(hotkey_name_of(foreign), None, "{foreign}");
    }
}

fn parse(s: &str) -> HotkeyCombo {
    HotkeyCombo::parse(s).expect("a valid shortcut")
}

const ALREADY_REGISTERED: i32 = 0x8007_0581u32 as i32;

/// The shortcuts of a session: who has which.
struct Session {
    held: Vec<HotkeyCombo>,
}

impl Session {
    fn ask(&mut self, combo: HotkeyCombo) -> SystemReply {
        if self.held.contains(&combo) {
            SystemReply::Refused(ALREADY_REGISTERED)
        } else {
            self.held.push(combo);
            SystemReply::Granted
        }
    }

    /// What a window has is given back before it asks anew.
    fn install(
        &mut self,
        desk: &mut HotkeyDesk,
        before: &[(i32, HotkeyCombo)],
        combos: &Vec<(i32, HotkeyCombo)>,
    ) -> HotkeysInstallReport {
        for (id, combo) in before {
            if desk.owned.contains(id) {
                self.held.retain(|h| h != combo);
            }
        }
        let replies = combos.iter().map(|(_, c)| self.ask(*c)).collect();
        let set = RegisteredHotkeySet::register_all(combos, &replies);
        desk.install_hotkeys(combos, set)
    }

    fn window(
        &mut self,
        edit: Option<HotkeyCombo>,
        toggle: Option<HotkeyCombo>,
        mute: Option<HotkeyCombo>,
        pin: Option<HotkeyCombo>,
    ) -> (HotkeyDesk, Vec<OverlayEvent>) {
        let mut desk = HotkeyDesk::new();
        let combos = initial_combos(edit, toggle, mute, pin, Vec::new());
        let report = self.install(&mut desk, &[], &combos);
        let events = events_of_conflicts(&report);
        (desk, events)
    }
}

#[test]
fn install_hotkeys_isolates_conflicts_and_updates_owned_set() {
    let mut session = Session { held: vec![] };
    let mut desk = HotkeyDesk::new();
    let ok = parse("Ctrl+Alt+Shift+F21");
    let taken = parse("Ctrl+Alt+Shift+F20");
    let first = vec![(EDIT, ok), (TOGGLE_ALL, taken)];
    let report = session.install(&mut desk, &[], &first);
    assert_eq!(report.registered, 2);
    assert!(report.conflicts.is_empty());
    assert_eq!(desk.owned.len(), 2);
    assert_eq!(desk.hotkeys.len(), 2);

    let second = vec![(EDIT, taken), (TOGGLE_ALL, ok)];
    let report = session.install(&mut desk, &first, &second);
    assert_eq!(report.registered, 2);
    assert!(report.conflicts.is_empty());
    assert_eq!(desk.owned.len(), 2);
    assert_eq!(desk.hotkeys.len(), 2);
}

fn expect_conflict(events: Vec<OverlayEvent>, name: HotkeyName, text: &str) {
    assert_eq!(events, vec![OverlayEvent::HotkeyConflict(name, text.to_string())]);
}

#[test]
fn second_window_with_same_hotkey_reports_conflict() {
    let mut session = Session { held: vec![] };
    let combo = parse("Ctrl+Alt+Shift+F22");
    let (_first, none) = session.window(Some(combo), None, None, None);
    assert!(none.is_empty());
    let (second, events) = session.window(Some(combo), None, None, None);
    expect_conflict(events, HotkeyName::EditMode, "Ctrl+Alt+Shift+F22");
    // The keyboard hook sees it instead, so the press still means something.
    assert_eq!(second.hook_combos(), vec![(EDIT, combo)]);
    assert_eq!(second.on_hotkey(EDIT), Some(OverlayEvent::ToggleEditMode));
}

#[test]
fn window_without_hotkey_does_not_conflict() {
    let mut session = Session { held: vec![] };
    let combo = parse("Ctrl+Alt+Shift+F21");
    let (first, _) = session.window(Some(combo), None, None, None);
    let (second, events) = session.window(None, None, None, None);
    assert!(events.is_empty());
    assert_eq!(first.on_hotkey(EDIT), Some(OverlayEvent::ToggleEditMode));
    assert_eq!(second.on_hotkey(EDIT), None);
}

#[test]
fn second_window_with_same_toggle_all_hotkey_reports_conflict() {
    let mut session = Session { held: vec![] };
    let toggle = parse("Ctrl+Alt+Shift+F20");
    let edit2 = parse("Ctrl+Alt+Shift+F19");
    let _first = session.window(Some(parse("Ctrl+Alt+Shift+F23")), Some(toggle), None, None);
    let (_second, events) = session.window(Some(edit2), Some(toggle), None, None);
    expect_conflict(events, HotkeyName::ToggleAllStickers, "Ctrl+Alt+Shift+F20");
}

#[test]
fn second_window_with_same_mute_all_hotkey_reports_conflict() {
    let mut session = Session { held: vec![] };
    let mute = parse("Ctrl+Alt+Shift+F18");
    let _first = session.window(None, None, Some(mute), None);
    let (_second, events) = session.window(None, None, Some(mute), None);
    expect_conflict(events, HotkeyName::MuteAll, "Ctrl+Alt+Shift+F18");
}

#[test]
fn second_window_with_same_pin_focused_hotkey_reports_conflict() {
    let mut session = Session { held: vec![] };
    let pin = parse("Ctrl+Alt+Shift+F17");
    let _first = session.window(None, None, None, Some(pin));
    let (_second, events) = session.window(None, None, None, Some(pin));
    expect_conflict(events, HotkeyName::PinFocusedWindow, "Ctrl+Alt+Shift+F17");
}

#[test]
fn a_failed_batch_leaves_no_shortcuts() {
    let mut desk = HotkeyDesk::new();
    let combos = vec![(EDIT, parse("Ctrl+Alt+S"))];
    let report = desk.install_hotkeys(&combos, Err(Win32Error::Win32(-1)));
    assert_eq!(report, HotkeysInstallReport { registered: 0, conflicts: vec![] });
    assert_eq!(desk.on_hotkey(EDIT), None);
    assert_eq!(
        reloaded_event(report),
        OverlayEvent::HotkeysReloaded { registered: 0, conflicts: vec![] }
    );
}

#[test]
fn conflicts_are_looked_up_by_number() {
    let a = parse("Ctrl+A");
    let b = parse("Ctrl+B");
    let report = HotkeysInstallReport {
        registered: 0,
        conflicts: vec![
            HotkeyRegistrationConflict { id: 9, combo: "Ctrl+B".to_string() },
            HotkeyRegistrationConflict { id: 77, combo: "?".to_string() },
        ],
    };
    assert_eq!(conflicting_combos(&[(8, a), (9, b)], &report), vec![(9, b)]);
}

#[test]
fn media_keys_that_are_taken_go_to_the_hook() {
    let mut desk = HotkeyDesk::new();
    let keys = media_combos();
    assert_eq!(
        keys.iter().map(|(id, c)| (*id, c.vk)).collect::<Vec<_>>(),
        vec![(5, 0x20), (6, 0x21), (7, 0x22)]
    );
    desk.set_media_hotkeys(
        true,
        &vec![SystemReply::Granted, SystemReply::Refused(-1), SystemReply::Granted],
    );
    assert_eq!(desk.media_hotkeys.iter().map(|h| h.id()).collect::<Vec<_>>(), vec![5, 7]);
    assert_eq!(desk.hook_combos(), vec![keys[1]]);
    desk.set_media_hotkeys(false, &vec![]);
    assert!(desk.media_hotkeys.is_empty());
    assert!(desk.hook_combos().is_empty());
    assert_eq!(desk.on_hotkey(6), Some(OverlayEvent::MediaVolumeUp));
}

#[test]
fn every_number_has_its_meaning() {
    assert_eq!(hotkey_event(1), Some(OverlayEvent::ToggleEditMode));
    assert_eq!(hotkey_event(2), Some(OverlayEvent::ToggleAllStickers));
    assert_eq!(hotkey_event(3), Some(OverlayEvent::ToggleMuteAll));
    assert_eq!(hotkey_event(4), Some(OverlayEvent::PinFocusedWindow));
    assert_eq!(hotkey_event(5), Some(OverlayEvent::MediaPlayPause));
    assert_eq!(hotkey_event(7), Some(OverlayEvent::MediaVolumeDown));
    for n in 1..=9u8 {
        assert_eq!(hotkey_event(7 + n as i32), Some(OverlayEvent::OpenGroup(n)));
    }
    assert_eq!(hotkey_event(17), Some(OverlayEvent::ToggleGroupsMenu));
    assert_eq!(hotkey_event(18), Some(OverlayEvent::DeleteOpenGroup));
    assert_eq!(hotkey_event(19), Some(OverlayEvent::UnpinAll));
    assert_eq!(hotkey_event(20), Some(OverlayEvent::PinTogglePressed));
    assert_eq!(hotkey_event(21), Some(OverlayEvent::ToggleMitosisMode));
    assert_eq!(hotkey_event(22), Some(OverlayEvent::ToggleWindowCropMode));
    assert_eq!(hotkey_event(0), None);
    assert_eq!(hotkey_event(23), None);
}

fn message(code: u32, wparam: usize, lparam: isize) -> Message {
    Message { code, wparam, lparam }
}

fn at(x: i16, y: i16) -> isize {
    (((y as u16 as u32) << 16) | (x as u16 as u32)) as isize
}

fn input(event: InputEvent) -> OverlayAction {
    OverlayAction::Emit(OverlayEvent::Input(event))
}

const PLAIN: Modifiers = Modifiers { shift: false, ctrl: false, alt: false };

#[test]
fn dpi_changed_applies_recommended_rect_and_reports_event() {
    let change = handle_dpi_changed(0x0001_00B0, edges(100, 200, 700, 500)).expect("a change");
    assert_eq!(
        change,
        DpiChange { dpi: 0xB0, x: 100, y: 200, w: 600, h: 300, size: (600, 300) }
    );
    let mut state = OverlayState::new();
    let mut now = Moment::plain(new_window());
    now.moved = Some(change);
    let reaction = state.on_message(&message(WM_DPICHANGED, 0x0001_00B0, 0), now);
    assert_eq!(
        reaction.actions,
        vec![OverlayAction::Emit(OverlayEvent::DpiChanged { dpi: 0xB0, size: (600, 300) })]
    );
    assert_eq!(reaction.reply, Reply::Value(0));
}

#[test]
fn dpi_changed_with_zero_dpi_is_ignored() {
    assert_eq!(handle_dpi_changed(0, edges(0, 0, 0, 0)), None);
    let mut state = OverlayState::new();
    let reaction = state.on_message(&message(WM_DPICHANGED, 0, 0), Moment::plain(0));
    assert!(reaction.actions.is_empty());
    assert_eq!(reaction.reply, Reply::System);
}

#[test]
fn key_event_press_filters_autorepeat() {
    let held = 0x4000_0000;
    assert_eq!(key_event_press(WM_KEYDOWN, 1), Some(true));
    assert_eq!(key_event_press(WM_KEYDOWN, held | 7), None);
    assert_eq!(key_event_press(WM_KEYUP, held | 1), Some(false));
    assert_eq!(key_event_press(WM_KEYUP, 0), Some(false));
    assert_eq!(key_event_press(WM_MOUSEMOVE, 0), None);
}

#[test]
fn session_change_maps_lock_and_unlock_only() {
    assert_eq!(
        session_change_event(WTS_SESSION_LOCK as usize),
        Some(OverlayEvent::SessionLocked)
    );
    assert_eq!(
        session_change_event(WTS_SESSION_UNLOCK as usize),
        Some(OverlayEvent::SessionUnlocked)
    );
    assert_eq!(session_change_event(0), None);
    assert_eq!(session_change_event(0x1), None);
    assert_eq!(session_change_event(WTS_SESSION_LOGON as usize), None);
}

#[test]
fn power_broadcast_maps_suspend_and_resume() {
    assert_eq!(
        power_broadcast_event(PBT_APMSUSPEND as usize),
        Some(OverlayEvent::SystemSuspending)
    );
    assert_eq!(
        power_broadcast_event(PBT_APMRESUMESUSPEND as usize),
        Some(OverlayEvent::SystemResumed)
    );
    assert_eq!(
        power_broadcast_event(PBT_APMRESUMEAUTOMATIC as usize),
        Some(OverlayEvent::SystemResumed)
    );
    assert_eq!(power_broadcast_event(PBT_APMQUERYSUSPEND as usize), None);
    assert_eq!(power_broadcast_event(PBT_APMBATTERYLOW as usize), None);
}

#[test]
fn system_and_session_events_reach_the_channel() {
    let mut state = OverlayState::new();
    let sleep = state.on_message(
        &message(WM_POWERBROADCAST, PBT_APMSUSPEND as usize, 0),
        Moment::plain(new_window()),
    );
    assert_eq!(sleep.actions, vec![OverlayAction::Emit(OverlayEvent::SystemSuspending)]);
    assert_eq!(sleep.reply, Reply::Value(1));
    let unlock = state.on_message(
        &message(WM_WTSSESSION_CHANGE, WTS_SESSION_UNLOCK as usize, 0),
        Moment::plain(new_window()),
    );
    assert_eq!(unlock.actions, vec![OverlayAction::Emit(OverlayEvent::SessionUnlocked)]);
    assert_eq!(unlock.reply, Reply::Value(1));
    let other = state.on_message(&message(WM_POWERBROADCAST, 9, 0), Moment::plain(0));
    assert_eq!((other.actions, other.reply), (vec![], Reply::System));
}

/// A moment on a window that takes the mouse everywhere, with the button down.
fn editing() -> Moment {
    let mut now = Moment::plain(0);
    now.left_down = true;
    now
}

#[test]
fn a_drag_takes_the_mouse_and_gives_it_back() {
    let mut state = OverlayState::new();
    let down = state.on_message(&message(WM_LBUTTONDOWN, 4, at(10, 20)), editing());
    assert_eq!(
        down.actions,
        vec![
            OverlayAction::TakeCapture,
            input(InputEvent::MouseDown {
                pos: Point { x: 10, y: 20 },
                modifiers: Modifiers { shift: true, ctrl: false, alt: false },
            }),
        ]
    );
    assert_eq!(down.reply, Reply::Value(0));
    let up = state.on_message(&message(WM_LBUTTONUP, 0, at(-5, 7)), editing());
    assert_eq!(
        up.actions,
        vec![
            OverlayAction::ReleaseCapture,
            input(InputEvent::MouseUp { pos: Point { x: -5, y: 7 }, modifiers: PLAIN }),
        ]
    );
    let stray = state.on_message(&message(WM_LBUTTONUP, 0, at(0, 0)), editing());
    assert_eq!((stray.actions, stray.reply), (vec![], Reply::System));
}

#[test]
fn a_window_that_lets_the_mouse_through_holds_nothing() {
    let mut state = OverlayState::new();
    state.on_message(&message(WM_LBUTTONDOWN, 0, at(1, 1)), editing());
    assert!(state.capture.captured);
    let through = || Moment::plain(WS_EX_TRANSPARENT);
    let moved = state.on_message(&message(WM_MOUSEMOVE, 0, at(2, 2)), through());
    assert_eq!(moved.actions, vec![OverlayAction::ReleaseCapture]);
    assert_eq!(moved.reply, Reply::System);
    let press = state.on_message(&message(WM_LBUTTONDOWN, 0, at(2, 2)), through());
    assert_eq!((press.actions, press.reply), (vec![], Reply::System));
    assert!(!state.capture.captured);
}

#[test]
fn places_take_clicks_without_holding_the_mouse() {
    let mut state = OverlayState::new();
    state.on_message(&message(WM_LBUTTONDOWN, 0, at(1, 1)), editing());
    let mut now = editing();
    now.policy = Some(OverlayInputPolicy::HitRects(vec![(10, 10, 50, 50)]));
    let given = state.on_message(&message(WM_APP_INPUT_POLICY, 0, 0), now);
    assert_eq!(
        given.actions,
        vec![
            OverlayAction::ReleaseCapture,
            OverlayAction::Style(Masks { set: WS_EX_NOACTIVATE, clear: WS_EX_TRANSPARENT }),
        ]
    );
    assert!(!state.capture.captured);
    let press = state.on_message(&message(WM_LBUTTONDOWN, 4, at(20, 20)), editing());
    assert_eq!(
        press.actions,
        vec![input(InputEvent::MouseDown { pos: Point { x: 20, y: 20 }, modifiers: PLAIN })]
    );
    assert!(!state.capture.captured);
    let lost = state.on_message(&message(WM_CAPTURECHANGED, 0, 0), editing());
    assert_eq!((lost.actions, lost.reply), (vec![], Reply::System));

    let mut asks = |x: i32, y: i32| {
        let mut now = Moment::plain(0);
        now.client_point = Some(Point { x, y });
        state.on_message(&message(WM_NCHITTEST, 0, 0), now).reply
    };
    assert_eq!(asks(10, 10), Reply::Value(HTCLIENT as isize));
    assert_eq!(asks(59, 59), Reply::Value(HTCLIENT as isize));
    assert_eq!(asks(60, 59), Reply::Value(HTTRANSPARENT as isize));
    assert_eq!(asks(9, 30), Reply::Value(HTTRANSPARENT as isize));
    let unknown = state.on_message(&message(WM_NCHITTEST, 0, 0), Moment::plain(0));
    assert_eq!(unknown.reply, Reply::Value(HTTRANSPARENT as isize));
}

#[test]
fn without_places_the_system_answers_a_hit_test() {
    let mut state = OverlayState::new();
    let mut now = Moment::plain(0);
    now.client_point = Some(Point { x: 1, y: 1 });
    assert_eq!(state.on_message(&message(WM_NCHITTEST, 0, 0), now).reply, Reply::System);
}

#[test]
fn the_focus_is_taken_last_and_only_where_asked_for() {
    let mut state = OverlayState::new();
    let mut now = Moment::plain(new_window());
    now.policy = Some(OverlayInputPolicy::Interactive { take_focus: true });
    let given = state.on_message(&message(WM_APP_INPUT_POLICY, 0, 0), now);
    assert_eq!(given.actions.len(), 2);
    assert_eq!(given.actions[1], OverlayAction::Focus);
    let none = state.on_message(&message(WM_APP_INPUT_POLICY, 0, 0), Moment::plain(0));
    assert_eq!((none.actions, none.reply), (vec![], Reply::Value(0)));
}

#[test]
fn the_wheel_is_reported_by_whole_notches() {
    let mut state = OverlayState::new();
    let mut turn = |delta: i16, ex: u32| {
        let wparam = ((delta as u16 as usize) << 16) | 0x8;
        let r = state.on_message(&message(WM_MOUSEWHEEL, wparam, 0), Moment::plain(ex));
        (r.actions, r.reply)
    };
    let wheel = |notches: i32| vec![input(InputEvent::MouseWheel { notches })];
    assert_eq!(turn(120, 0), (wheel(1), Reply::Value(0)));
    assert_eq!(turn(-240, 0), (wheel(-2), Reply::Value(0)));
    assert_eq!(turn(-119, 0), (vec![], Reply::Value(0)));
    assert_eq!(turn(359, 0), (wheel(2), Reply::Value(0)));
    assert_eq!(turn(120, WS_EX_TRANSPARENT), (vec![], Reply::System));
}

#[test]
fn the_cursor_is_shown_when_it_changes_and_when_it_is_asked_for() {
    let mut state = OverlayState::new();
    let code = cursor_shape_to_wparam(CursorShape::Rotate(-45));
    let set = state.on_message(&message(WM_APP_EDIT_CURSOR, code, 0), Moment::plain(0));
    assert_eq!(set.actions, vec![OverlayAction::ShowCursor(CursorShape::Rotate(315))]);
    let again = state.on_message(&message(WM_APP_EDIT_CURSOR, code, 0), Moment::plain(0));
    assert_eq!((again.actions, again.reply), (vec![], Reply::Value(0)));
    let bad = state.on_message(&message(WM_APP_EDIT_CURSOR, 7, 0), Moment::plain(0));
    assert_eq!((bad.actions, bad.reply), (vec![], Reply::Value(0)));
    let asked = state.on_message(&message(WM_SETCURSOR, 0, HTCLIENT as isize), Moment::plain(0));
    assert_eq!(asked.actions, vec![OverlayAction::ShowCursor(CursorShape::Rotate(315))]);
    assert_eq!(asked.reply, Reply::Value(1));
    let outside = state.on_message(&message(WM_SETCURSOR, 0, 2), Moment::plain(0));
    assert_eq!((outside.actions, outside.reply), (vec![], Reply::System));
}

#[test]
fn text_and_keys_reach_the_editor() {
    let mut state = OverlayState::new();
    let mut typed = |unit: usize| {
        let r = state.on_message(&message(WM_CHAR, unit, 0), Moment::plain(0));
        assert_eq!(r.reply, Reply::Value(0));
        r.actions
    };
    let text = |c: char| vec![OverlayAction::Emit(OverlayEvent::Char(c))];
    assert_eq!(typed('ж' as usize), text('ж'));
    assert_eq!(typed(0x8), vec![]);
    assert_eq!(typed(0xD83D), vec![]);
    assert_eq!(typed(0xDE00), text('\u{1F600}'));

    let mut now = Moment::plain(0);
    now.modifiers = Modifiers { shift: false, ctrl: true, alt: false };
    let key = state.on_message(&message(WM_KEYDOWN, 'D' as usize, 1), now);
    assert_eq!(
        key.actions,
        vec![OverlayAction::Emit(OverlayEvent::Key {
            vk: 'D' as u32,
            modifiers: Modifiers { shift: false, ctrl: true, alt: false },
            pressed: true,
        })]
    );
    assert_eq!(key.reply, Reply::System);
    let repeat =
        state.on_message(&message(WM_KEYDOWN, VK_ESCAPE as usize, 0x4000_0001), Moment::plain(0));
    assert_eq!((repeat.actions, repeat.reply), (vec![], Reply::Value(0)));
}

#[test]
fn the_rest_of_the_messages_do_what_they_say() {
    let mut state = OverlayState::new();
    let release = state.on_message(&message(WM_APP_RELEASE_CAPTURE, 0, 0), Moment::plain(0));
    assert_eq!(release.actions, vec![OverlayAction::ReleaseCapture]);
    let media = state.on_message(&message(WM_APP_MEDIA_HOTKEYS, 1, 0), Moment::plain(0));
    assert_eq!(media.actions, vec![OverlayAction::MediaHotkeys(true)]);
    let media = state.on_message(&message(WM_APP_MEDIA_HOTKEYS, 0, 0), Moment::plain(0));
    assert_eq!(media.actions, vec![OverlayAction::MediaHotkeys(false)]);
    let reload = state.on_message(&message(WM_APP_REREGISTER_HOTKEYS, 0, 0), Moment::plain(0));
    assert_eq!(reload.actions, vec![OverlayAction::ReloadHotkeys]);

    let mut now = Moment::plain(0);
    now.intruder = Some(77);
    let tick = state.on_message(&message(WM_TIMER, TOPMOST_TIMER_ID, 0), now);
    assert_eq!(tick.actions, vec![OverlayAction::RaiseToTop]);
    let other = state.on_message(&message(WM_TIMER, 2, 0), Moment::plain(0));
    assert_eq!((other.actions, other.reply), (vec![], Reply::System));

    let list = || {
        vec![MonitorInfo {
            id: MonitorId("A".to_string()),
            friendly_name: "a".to_string(),
            bounds_px: test_bounds(),
            dpi: 96,
            is_primary: true,
        }]
    };
    let mut now = Moment::plain(0);
    now.monitors = Some(list());
    let changed = state.on_message(&message(WM_DISPLAYCHANGE, 0, 0), now);
    assert_eq!(
        changed.actions,
        vec![OverlayAction::Emit(OverlayEvent::MonitorsChanged(list()))]
    );
    let unread = state.on_message(&message(WM_DISPLAYCHANGE, 0, 0), Moment::plain(0));
    assert_eq!((unread.actions, unread.reply), (vec![], Reply::System));
    let close = state.on_message(&message(WM_CLOSE, 0, 0), Moment::plain(0));
    assert_eq!((close.actions, close.reply), (vec![], Reply::System));
}

#[test]
fn a_window_that_is_gone_says_nothing_more() {
    let mut state = OverlayState::new();
    let end = state.on_message(&message(WM_DESTROY, 0, 0), Moment::plain(0));
    assert_eq!(
        end.actions,
        vec![
            OverlayAction::StopTopmostTimer,
            OverlayAction::LeaveSession,
            OverlayAction::Quit,
        ]
    );
    let gone = state.on_message(&message(WM_NCDESTROY, 0, 0), Moment::plain(0));
    assert_eq!(gone.actions, vec![OverlayAction::ClearHook, OverlayAction::GiveUpHotkeys]);
    assert_eq!(gone.reply, Reply::System);
    let press = state.on_message(&message(WM_LBUTTONDOWN, 0, at(1, 1)), editing());
    assert_eq!((press.actions, press.reply), (vec![], Reply::System));
    let sleep = state.on_message(
        &message(WM_POWERBROADCAST, PBT_APMSUSPEND as usize, 0),
        Moment::plain(0),
    );
    assert_eq!((sleep.actions, sleep.reply), (vec![], Reply::Value(1)));
    let key = state.on_message(&message(WM_KEYUP, 1, 0), Moment::plain(0));
    assert!(key.actions.is_empty());
}

#[test]
fn an_event_is_copied_whole() {
    let monitor = MonitorInfo {
        id: MonitorId("A".to_string()),
        friendly_name: "Left".to_string(),
        bounds_px: Rect { x: -5, y: 6, w: 7, h: 8 },
        dpi: 120,
        is_primary: true,
    };
    let conflict = HotkeyRegistrationConflict { id: 9, combo: "Ctrl+Shift+2".to_string() };
    for event in [
        OverlayEvent::ToggleEditMode,
        OverlayEvent::ToggleWindowCropMode,
        OverlayEvent::OpenGroup(4),
        OverlayEvent::Char('я'),
        OverlayEvent::HotkeyConflict(HotkeyName::MuteAll, "Ctrl+Alt+M".to_string()),
        OverlayEvent::HotkeysReloaded { registered: 3, conflicts: vec![conflict] },
        OverlayEvent::DpiChanged { dpi: 144, size: (10, 20) },
        OverlayEvent::Input(InputEvent::MouseWheel { notches: -2 }),
        OverlayEvent::MonitorsChanged(vec![monitor]),
    ] {
        assert_eq!(event.clone(), event);
    }
    let policy = OverlayInputPolicy::HitRects(vec![(1, 2, 3, 4)]);
    assert_eq!(policy.clone(), policy);
}
