use rst_win32::crop_window::geometry::{
    aspect_driver, dimensions, dip_to_px, fit_aspect, is_near, strip_button_side, Driver,
};
use rst_win32::crop_window::messages::{Message, Moment, WM_APP_COMMAND, WM_APP_SHUTDOWN};
use rst_win32::crop_window::paint::strip_layout;
use rst_win32::crop_window::pin::{pin_cells, pin_origin, pin_rgba, pin_side, RgbaImage};
use rst_win32::crop_window::plan::plan_windows;
use rst_win32::crop_window::state::{strip_band, Band, Command, CropAction, WindowRole};
use rst_win32::crop_window::{
    hit_test_strip, resize_hit, strip_rect, CropWindowError, CropWindowEvent, CropWindowOptions,
    DragTracker, DragUpdate, Point, SourceRect, StripHit, WINDOW_CLASS,
};
use rst_win32::model::{Edges, Rect};
use rst_win32::winapi::{
    HTBOTTOM, HTBOTTOMLEFT, HTBOTTOMRIGHT, HTCLIENT, HTLEFT, HTRIGHT, HTTOP, HTTOPLEFT, HTTOPRIGHT,
    WMSZ_BOTTOM, WMSZ_RIGHT, WMSZ_TOP, WM_CLOSE, WM_LBUTTONDOWN, WM_LBUTTONUP, WM_MOUSEMOVE,
    WM_WINDOWPOSCHANGED, WS_EX_TOPMOST,
};
use rst_win32::window::Reply;

#[test]
fn resize_hit_marks_edges_and_corners() {
    let r = Rect { x: 100, y: 100, w: 300, h: 200 };
    assert_eq!(resize_hit(r, 96, 101, 101), HTTOPLEFT);
    assert_eq!(resize_hit(r, 96, 398, 101), HTTOPRIGHT);
    assert_eq!(resize_hit(r, 96, 101, 298), HTBOTTOMLEFT);
    assert_eq!(resize_hit(r, 96, 398, 298), HTBOTTOMRIGHT);
    assert_eq!(resize_hit(r, 96, 101, 200), HTLEFT);
    assert_eq!(resize_hit(r, 96, 398, 200), HTRIGHT);
    assert_eq!(resize_hit(r, 96, 250, 101), HTTOP);
    assert_eq!(resize_hit(r, 96, 250, 298), HTBOTTOM);
    assert_eq!(resize_hit(r, 96, 250, 200), HTCLIENT);
    assert_eq!(resize_hit(r, 96, 50, 50), HTCLIENT);
}

#[test]
fn resize_edge_grows_with_dpi() {
    let r = Rect { x: 0, y: 0, w: 300, h: 200 };
    assert_eq!(resize_hit(r, 96, 8, 100), HTCLIENT);
    assert_eq!(resize_hit(r, 144, 8, 100), HTLEFT);
}

/// Keep a proportion during a resize: the side that drives it decides, and the
/// other follows.
fn keep_aspect(rect: &mut Edges, edge: u32, aspect: Option<f64>) {
    let aspect = match aspect {
        Some(aspect) if aspect > 0.0 => aspect,
        _ => return,
    };
    match aspect_driver(rect, edge) {
        Some(Driver::Width(w)) => fit_aspect(rect, edge, (w as f64 / aspect).round() as i32),
        Some(Driver::Height(h)) => fit_aspect(rect, edge, (h as f64 * aspect).round() as i32),
        None => {}
    }
}

#[test]
fn keep_aspect_derives_the_other_side() {
    let mut r = Edges { left: 0, top: 0, right: 400, bottom: 100 };
    keep_aspect(&mut r, WMSZ_RIGHT, Some(2.0));
    assert_eq!(r.bottom - r.top, 200);
    let mut r = Edges { left: 0, top: 0, right: 100, bottom: 150 };
    keep_aspect(&mut r, WMSZ_BOTTOM, Some(2.0));
    assert_eq!(r.right - r.left, 300);
}

#[test]
fn keep_aspect_leaves_degenerate_input_alone() {
    let before = Edges { left: 10, top: 20, right: 110, bottom: 220 };
    let mut r = before;
    keep_aspect(&mut r, WMSZ_RIGHT, None);
    assert_eq!((r.left, r.top, r.right, r.bottom), (10, 20, 110, 220));
    let mut r = before;
    keep_aspect(&mut r, WMSZ_RIGHT, Some(0.0));
    assert_eq!((r.left, r.top, r.right, r.bottom), (10, 20, 110, 220));
}

#[test]
fn strip_follows_content_dragged_above_the_screen_top() {
    let high = Rect { x: 0, y: -100, w: 320, h: 220 };
    let strip = strip_rect(high, 0, 96);
    assert_eq!(strip.y, 0);
    assert!(strip.y >= high.y && strip.y < high.y + high.h as i32);
}

#[test]
fn strip_never_leaves_a_gap_over_the_content() {
    for y in [-50, 0, 5, 200, 1000] {
        let content = Rect { x: 10, y, w: 300, h: 200 };
        let strip = strip_rect(content, 0, 96);
        assert!(strip.y >= content.y, "{y}");
        assert!(strip.y < content.y + content.h as i32, "{y}");
        assert_eq!(strip.x, content.x);
        assert_eq!(strip.w, content.w);
    }
}

#[test]
fn strip_lies_over_the_top_edge_of_content() {
    let content = Rect { x: 100, y: 200, w: 320, h: 220 };
    assert_eq!(strip_rect(content, 0, 96), Rect { x: 100, y: 200, w: 320, h: 28 });
}

#[test]
fn strip_at_monitor_top_is_over_content_not_offscreen() {
    let content = Rect { x: -10, y: -50, w: 320, h: 220 };
    assert_eq!(strip_rect(content, -50, 144), Rect { x: -10, y: -50, w: 320, h: 42 });
}

#[test]
fn strip_scales_dip_height_to_physical_pixels() {
    let content = Rect { x: 0, y: 100, w: 320, h: 220 };
    assert_eq!(strip_rect(content, 0, 192).h, 56);
}

#[test]
fn strip_buttons_and_drag_zone_are_disjoint() {
    assert_eq!(hit_test_strip(320, 28, 10, 14), StripHit::Pin);
    assert_eq!(hit_test_strip(320, 28, 120, 14), StripHit::Drag);
    assert_eq!(hit_test_strip(320, 28, 280, 14), StripHit::Minimize);
    assert_eq!(hit_test_strip(320, 28, 315, 14), StripHit::Close);
    assert_eq!(hit_test_strip(320, 28, 10, 30), StripHit::Nothing);
}

#[test]
fn small_strip_still_has_all_three_button_zones() {
    assert_eq!(hit_test_strip(40, 28, 2, 10), StripHit::Pin);
    assert_eq!(hit_test_strip(40, 28, 12, 10), StripHit::Drag);
    assert_eq!(hit_test_strip(40, 28, 22, 10), StripHit::Minimize);
    assert_eq!(hit_test_strip(40, 28, 39, 10), StripHit::Close);
}

#[test]
fn strip_zones_never_overlap_across_sizes() {
    for width in [24_u32, 40, 64, 120, 320, 1920] {
        for height in [16_u32, 28, 40] {
            let button = strip_button_side(width, height);
            if button == 0 {
                assert_eq!(
                    hit_test_strip(width, height, (width / 2) as i32, 1),
                    StripHit::Drag
                );
                continue;
            }
            let seen: Vec<StripHit> = [width - 1, width - button - 1, 0]
                .iter()
                .map(|x| hit_test_strip(width, height, *x as i32, (height / 2) as i32))
                .collect();
            assert_eq!(
                seen,
                vec![StripHit::Close, StripHit::Minimize, StripHit::Pin],
                "{width} by {height}"
            );
        }
    }
}

#[test]
fn physical_release_ends_drag_once_without_move() {
    let mut drag = DragTracker::new();
    drag.begin(Point { x: 120, y: 130 }, Point { x: 100, y: 100 });
    assert_eq!(
        drag.move_cursor(Point { x: 140, y: 150 }, false),
        Some(DragUpdate::Ended(Point { x: 100, y: 100 }))
    );
    assert_eq!(drag.end(), None);
}

#[test]
fn button_up_ends_drag_once_and_capture_change_is_idempotent() {
    let mut drag = DragTracker::new();
    drag.begin(Point { x: 120, y: 130 }, Point { x: 100, y: 100 });
    assert_eq!(
        drag.move_cursor(Point { x: 160, y: 180 }, true),
        Some(DragUpdate::Moved(Point { x: 140, y: 150 }))
    );
    assert_eq!(drag.end(), Some(DragUpdate::Ended(Point { x: 140, y: 150 })));
    assert_eq!(drag.end(), None);
}

#[test]
fn drag_offset_is_preserved_for_both_axes() {
    let mut drag = DragTracker::new();
    drag.begin(Point { x: 143, y: 167 }, Point { x: 100, y: 120 });
    assert_eq!(
        drag.move_cursor(Point { x: 203, y: 217 }, true),
        Some(DragUpdate::Moved(Point { x: 160, y: 170 }))
    );
}

fn options() -> CropWindowOptions {
    let mut options = CropWindowOptions::new(
        Rect { x: 100, y: 200, w: 320, h: 220 },
        SourceRect { x: 5, y: 6, w: 160, h: 110 },
        "Notes",
    );
    options.screen_top = 0;
    options
}

fn at() -> Moment {
    Moment {
        cursor: None,
        left_down: false,
        shift_down: false,
        client_w: 320,
        client_h: 28,
        window: None,
        position_flags: None,
        command: None,
    }
}

fn to_strip(code: u32, x: i16, y: i16) -> Message {
    let lparam = (((y as u16 as u32) << 16) | (x as u16 as u32)) as isize;
    Message { role: WindowRole::Strip, code, wparam: 0, lparam }
}

fn to_content(code: u32) -> Message {
    Message { role: WindowRole::Content, code, wparam: 0, lparam: 0 }
}

fn events(actions: &[CropAction]) -> Vec<CropWindowEvent> {
    actions
        .iter()
        .filter_map(|a| match a {
            CropAction::Emit(event) => Some(*event),
            _ => None,
        })
        .collect()
}

#[test]
fn both_windows_are_planned_together() {
    let plan = plan_windows(&options()).expect("a plan");
    assert_eq!((plan.content.x, plan.content.y, plan.content.w, plan.content.h), (100, 200, 320, 220));
    assert_eq!((plan.strip.x, plan.strip.y, plan.strip.w, plan.strip.h), (100, 200, 320, 28));
    assert_eq!(plan.content.ex_style & WS_EX_TOPMOST, 0);
    assert_eq!(plan.title, "Notes\0".encode_utf16().collect::<Vec<u16>>());
    assert_eq!(plan.caption, "Notes".encode_utf16().collect::<Vec<u16>>());
    assert!(!plan.state.minimized && !plan.state.drag.is_active());

    let mut titled = options();
    titled.window_title = "Piece".to_string();
    titled.always_on_top = true;
    let plan = plan_windows(&titled).expect("a plan");
    assert_eq!(plan.title, "Piece\0".encode_utf16().collect::<Vec<u16>>());
    assert_ne!(plan.content.ex_style & WS_EX_TOPMOST, 0);
    assert_ne!(plan.strip.ex_style & WS_EX_TOPMOST, 0);
    assert_eq!(WINDOW_CLASS, "resticker_crop_window");
}

#[test]
fn a_piece_without_extent_is_not_planned() {
    let mut flat = options();
    flat.bounds.h = 0;
    assert_eq!(plan_windows(&flat).err(), Some(CropWindowError::CreateFailed));
}

#[test]
fn a_drag_by_the_strip_reports_its_place_once() {
    let mut state = plan_windows(&options()).expect("a plan").state;
    let mut press = at();
    press.cursor = Some(Point { x: 250, y: 210 });
    press.left_down = true;
    let down = state.on_message(to_strip(WM_LBUTTONDOWN, 150, 10), &press);
    assert!(down.actions.contains(&CropAction::CaptureStrip));
    assert!(state.drag.is_active());

    let mut moving = press;
    moving.cursor = Some(Point { x: 270, y: 240 });
    let moved = state.on_message(to_strip(WM_MOUSEMOVE, 150, 10), &moving);
    assert!(moved.actions.contains(&CropAction::MoveContent { x: 120, y: 230 }));
    assert!(events(&moved.actions).is_empty());

    let up = state.on_message(to_strip(WM_LBUTTONUP, 150, 10), &moving);
    assert!(up.actions.contains(&CropAction::ReleaseCapture));
    assert_eq!(
        events(&up.actions),
        vec![CropWindowEvent::Geometry { x: 120, y: 230, w: 320, h: 220 }]
    );
    let again = state.on_message(to_strip(WM_LBUTTONUP, 150, 10), &moving);
    assert!(events(&again.actions).is_empty());
}

#[test]
fn the_pin_is_switched_by_its_button() {
    let mut state = plan_windows(&options()).expect("a plan").state;
    let on = state.on_message(to_strip(WM_LBUTTONDOWN, 5, 10), &at());
    assert!(state.always_on_top);
    assert_eq!(events(&on.actions), vec![CropWindowEvent::AlwaysOnTopToggled(true)]);
    assert!(on.actions.contains(&CropAction::RaiseContent(Band::Topmost)));
    let off = state.on_message(to_strip(WM_LBUTTONDOWN, 5, 10), &at());
    assert_eq!(events(&off.actions), vec![CropWindowEvent::AlwaysOnTopToggled(false)]);
    assert!(off.actions.contains(&CropAction::RaiseContent(Band::Ordinary)));
    assert_eq!(strip_band(WS_EX_TOPMOST), Band::Topmost);
    assert_eq!(strip_band(0), Band::Ordinary);
}

#[test]
fn a_minimized_piece_comes_back_by_a_press() {
    let mut state = plan_windows(&options()).expect("a plan").state;
    let place = state.content_rect;
    let mut asked = at();
    asked.command = Some(Command::Minimize(Point { x: 7, y: 8 }));
    state.on_message(to_content(WM_APP_COMMAND), &asked);
    assert!(state.minimized);
    assert_eq!(state.content_rect, Rect { x: 7, y: 8, w: 32, h: 32 });
    let press = state.on_message(to_content(WM_LBUTTONDOWN), &at());
    assert_eq!(events(&press.actions), vec![CropWindowEvent::RestoreClicked]);
    assert!(!state.minimized);
    assert_eq!(state.content_rect, place);
}

#[test]
fn bounds_from_here_are_no_news() {
    let mut state = plan_windows(&options()).expect("a plan").state;
    let mut asked = at();
    let bounds = Rect { x: 1, y: 2, w: 10, h: 20 };
    asked.command = Some(Command::SetBounds(bounds));
    let told = state.on_message(to_content(WM_APP_COMMAND), &asked);
    assert_eq!(
        told.actions,
        vec![
            CropAction::PlaceContent { x: 1, y: 2, w: 10, h: 20 },
            CropAction::RefreshMetrics,
            CropAction::PlaceStrip,
            CropAction::RaiseStrip,
            CropAction::EndSelfMove,
        ]
    );
    assert_eq!(state.content_rect, bounds);

    let mut larger = at();
    larger.window = Some(Edges { left: 1, top: 2, right: 49, bottom: 50 });
    let echo = state.on_message(to_content(WM_WINDOWPOSCHANGED), &larger);
    assert!(events(&echo.actions).is_empty());
    assert_eq!(state.content_rect, bounds);

    state.end_self_move();
    let outside = state.on_message(to_content(WM_WINDOWPOSCHANGED), &larger);
    assert_eq!(
        events(&outside.actions),
        vec![CropWindowEvent::Geometry { x: 1, y: 2, w: 48, h: 48 }]
    );
}

#[test]
fn a_strip_that_moves_is_raised() {
    let mut state = plan_windows(&options()).expect("a plan").state;
    let mut out = Vec::new();
    state.move_windows(5, 6, &mut out);
    assert_eq!(
        out,
        vec![
            CropAction::MoveContent { x: 5, y: 6 },
            CropAction::RefreshMetrics,
            CropAction::MoveStrip,
            CropAction::RaiseStrip,
            CropAction::EndSelfMove,
        ]
    );
}

#[test]
fn a_close_is_reported_and_a_shutdown_is_not() {
    let plan = plan_windows(&options()).expect("a plan");
    let mut state = plan.state;
    let closed = state.on_message(to_content(WM_CLOSE), &at());
    assert_eq!(events(&closed.actions), vec![CropWindowEvent::CloseClicked]);
    let mut state = plan.state;
    let shut = state.on_message(to_content(WM_APP_SHUTDOWN), &at());
    assert!(events(&shut.actions).is_empty());
    assert!(shut.actions.contains(&CropAction::DestroyStrip));
    assert!(shut.actions.contains(&CropAction::DestroyContent));
    assert_eq!(shut.reply, Reply::Value(0));
}

#[test]
fn lengths_follow_the_density() {
    assert_eq!(dip_to_px(28, 96), 28);
    assert_eq!(dip_to_px(28, 144), 42);
    assert_eq!(dimensions(Rect { x: 0, y: 0, w: 10, h: 20 }), (10, 20));
    let rect = Rect { x: 100, y: 100, w: 50, h: 50 };
    assert!(is_near(rect, Point { x: 90, y: 120 }));
    assert!(!is_near(rect, Point { x: 60, y: 120 }));
}

#[test]
fn a_resize_by_the_top_edge_keeps_the_bottom() {
    let mut r = Edges { left: 0, top: 50, right: 100, bottom: 150 };
    keep_aspect(&mut r, WMSZ_TOP, Some(0.5));
    assert_eq!((r.top, r.bottom), (50, 150));
    assert_eq!(r.right - r.left, 50);
}

#[test]
fn the_layout_of_the_strip_follows_its_buttons() {
    let client = Edges { left: 0, top: 0, right: 320, bottom: 28 };
    let plain = strip_layout(&client, 96, StripHit::Nothing);
    assert_eq!(plain.button as u32, strip_button_side(320, 28));
    assert_eq!(plain.hover, None);
    assert_eq!(plain.font_height, -12);
    let close = strip_layout(&client, 96, StripHit::Close).hover.expect("a patch");
    assert_eq!(close.area.right, 320);
    assert_eq!(close.color, 0x001c_2bc4);
    let pin = strip_layout(&client, 96, StripHit::Pin).hover.expect("a patch");
    assert_eq!(pin.area.left, 0);
    assert_eq!(pin.color, 0x0036_2f2f);
}

/// Two by two pixels: red, half green, nothing, and a dark one.
const PICTURE: &[u8] = &[
    137, 80, 78, 71, 13, 10, 26, 10, 0, 0, 0, 13, 73, 72, 68, 82, 0, 0, 0, 2, 0, 0, 0, 2,
    8, 6, 0, 0, 0, 114, 182, 13, 36, 0, 0, 0, 22, 73, 68, 65, 84, 120, 156, 99, 248, 207,
    192, 240, 31, 8, 27, 24, 64, 52, 151, 136, 156, 6, 0, 54, 169, 4, 225, 102, 7, 5, 73,
    0, 0, 0, 0, 73, 69, 78, 68, 174, 66, 96, 130,
];

#[test]
fn a_picture_is_decoded_to_rgba() {
    let picture = pin_rgba(PICTURE).expect("a picture");
    assert_eq!((picture.width, picture.height), (2, 2));
    assert_eq!(
        picture.pixels,
        vec![255, 0, 0, 255, 0, 255, 0, 128, 0, 0, 255, 0, 10, 20, 30, 40]
    );
    assert_eq!(pin_rgba(b"no picture at all"), None);
    assert_eq!(pin_rgba(&PICTURE[..PICTURE.len() / 2]), None);
}

#[test]
fn the_opacity_of_the_picture_is_shared_out_over_the_button() {
    let picture = pin_rgba(PICTURE).expect("a picture");
    let whole = pin_cells(&picture, 1).expect("cells");
    assert_eq!(whole.len(), 1);
    assert_eq!((whole[0].opacity, whole[0].count), (255 + 128 + 0 + 40, 4));
    let each = pin_cells(&picture, 2).expect("cells");
    let shares: Vec<(u128, u64)> = each.iter().map(|c| (c.opacity, c.count)).collect();
    assert_eq!(shares, vec![(255, 1), (128, 1), (0, 1), (40, 1)]);
    let larger = pin_cells(&picture, 4).expect("cells");
    assert_eq!(larger.len(), 16);
    assert_eq!((larger[0].opacity, larger[15].opacity), (255, 40));
    let empty = RgbaImage { pixels: vec![], width: 0, height: 5 };
    assert!(pin_cells(&empty, 3).is_none());
}

#[test]
fn the_pin_lies_in_the_middle_of_its_button() {
    assert_eq!(pin_side(32), 20);
    assert_eq!(pin_side(5), 8);
    assert_eq!(pin_origin(0, 32, 28, 20), (6, 4));
}
