use rst_win32::input::cursor::{
    premultiplied_bgra, rotate_cursor_rgba, RotateCache, ROTATE_CURSOR_SIZE,
};
use rst_win32::input::{
    lparam_point, transition, CaptureOp, CursorManager, CursorShape, CursorZone, Handle,
    InputEvent, Modifiers, MouseCapture, MouseMessage, Point,
};
use rst_win32::winapi::{
    HTCLIENT, MK_CONTROL, MK_SHIFT, WM_CAPTURECHANGED, WM_LBUTTONDOWN, WM_LBUTTONUP, WM_MOUSEMOVE,
};

fn mk_lparam(x: i16, y: i16) -> isize {
    (((y as u16 as u32) << 16) | (x as u16 as u32)) as isize
}

#[test]
fn lparam_point_decodes_signed_coords() {
    assert_eq!(lparam_point(mk_lparam(10, 20)), Point { x: 10, y: 20 });
    assert_eq!(lparam_point(mk_lparam(-100, -5)), Point { x: -100, y: -5 });
}

#[test]
fn modifiers_from_flags() {
    let m = Modifiers::from_flags(MK_SHIFT | MK_CONTROL, true);
    assert!(m.shift && m.ctrl && m.alt);
    let m = Modifiers::from_flags(0, false);
    assert!(!m.shift && !m.ctrl && !m.alt);
}

#[test]
fn transition_state_machine() {
    let pos = Point { x: 1, y: 2 };
    let mods = Modifiers::default();

    let (captured, op, event) = transition(false, WM_LBUTTONDOWN, pos, mods);
    assert!(captured);
    assert_eq!(op, CaptureOp::Take);
    assert_eq!(event, Some(InputEvent::MouseDown { pos, modifiers: mods }));

    let (captured, op, event) = transition(true, WM_MOUSEMOVE, pos, mods);
    assert!(captured);
    assert_eq!(op, CaptureOp::Keep);
    assert_eq!(event, Some(InputEvent::MouseMove { pos, modifiers: mods, dragging: true }));

    let (_, _, event) = transition(false, WM_MOUSEMOVE, pos, mods);
    assert_eq!(event, Some(InputEvent::MouseMove { pos, modifiers: mods, dragging: false }));

    let (captured, op, event) = transition(true, WM_LBUTTONUP, pos, mods);
    assert!(!captured);
    assert_eq!(op, CaptureOp::Release);
    assert_eq!(event, Some(InputEvent::MouseUp { pos, modifiers: mods }));

    let (captured, op, event) = transition(false, WM_LBUTTONUP, pos, mods);
    assert!(!captured);
    assert_eq!(op, CaptureOp::Keep);
    assert_eq!(event, None);

    let (captured, op, event) = transition(true, WM_CAPTURECHANGED, pos, mods);
    assert!(!captured);
    assert_eq!(op, CaptureOp::Keep);
    assert_eq!(event, Some(InputEvent::CaptureLost));

    let (_, _, event) = transition(false, WM_CAPTURECHANGED, pos, mods);
    assert_eq!(event, None);
    let (captured, op, event) = transition(true, 0x9999, pos, mods);
    assert!(captured);
    assert_eq!(op, CaptureOp::Keep);
    assert_eq!(event, None);
}

#[test]
fn zone_to_shape_mapping() {
    assert_eq!(CursorZone::Background.cursor_shape(), CursorShape::Arrow);
    assert_eq!(CursorZone::StickerBody.cursor_shape(), CursorShape::Move);
    assert_eq!(CursorZone::ResizeHandle(Handle::North).cursor_shape(), CursorShape::SizeNS);
    assert_eq!(CursorZone::ResizeHandle(Handle::South).cursor_shape(), CursorShape::SizeNS);
    assert_eq!(CursorZone::ResizeHandle(Handle::East).cursor_shape(), CursorShape::SizeWE);
    assert_eq!(CursorZone::ResizeHandle(Handle::West).cursor_shape(), CursorShape::SizeWE);
    assert_eq!(
        CursorZone::ResizeHandle(Handle::NorthEast).cursor_shape(),
        CursorShape::SizeNESW
    );
    assert_eq!(
        CursorZone::ResizeHandle(Handle::SouthWest).cursor_shape(),
        CursorShape::SizeNESW
    );
    assert_eq!(
        CursorZone::ResizeHandle(Handle::NorthWest).cursor_shape(),
        CursorShape::SizeNWSE
    );
    assert_eq!(
        CursorZone::ResizeHandle(Handle::SouthEast).cursor_shape(),
        CursorShape::SizeNWSE
    );
    assert_eq!(CursorZone::RotateZone(45).cursor_shape(), CursorShape::Rotate(45));
    assert_eq!(CursorZone::RotateZone(-135).cursor_shape(), CursorShape::Rotate(-135));
}

/// A window's mouse together with the system's own record of who holds it.
struct Captured {
    mouse: MouseCapture,
    held: bool,
}

impl Captured {
    fn new() -> Self {
        Captured { mouse: MouseCapture::new(), held: false }
    }

    fn handle(
        &mut self,
        msg: u32,
        wparam: usize,
        lparam: isize,
        left_down: bool,
    ) -> Option<InputEvent> {
        let message = MouseMessage { msg, wparam, lparam, alt_down: false, left_down };
        let (op, event) = self.mouse.handle_message_checked(&message);
        match op {
            CaptureOp::Keep => {}
            CaptureOp::Take => self.held = true,
            CaptureOp::Release => self.held = false,
        }
        event
    }
}

#[test]
fn capture_lifecycle_with_real_window() {
    let mut cap = Captured::new();
    assert!(!cap.mouse.is_captured());

    let shift_only = Modifiers { shift: true, ctrl: false, alt: false };
    let down = cap.handle(WM_LBUTTONDOWN, MK_SHIFT as usize, mk_lparam(10, 20), true);
    assert_eq!(
        down,
        Some(InputEvent::MouseDown { pos: Point { x: 10, y: 20 }, modifiers: shift_only })
    );
    assert!(cap.mouse.is_captured());
    assert!(cap.held);

    let mv = cap.handle(WM_MOUSEMOVE, 0, mk_lparam(-5, 7), true);
    assert_eq!(
        mv,
        Some(InputEvent::MouseMove {
            pos: Point { x: -5, y: 7 },
            modifiers: Modifiers::default(),
            dragging: true
        })
    );

    let up = cap.handle(WM_LBUTTONUP, 0, mk_lparam(-5, 7), false);
    assert_eq!(
        up,
        Some(InputEvent::MouseUp { pos: Point { x: -5, y: 7 }, modifiers: Modifiers::default() })
    );
    assert!(!cap.mouse.is_captured());
    assert!(!cap.held);

    assert_eq!(cap.handle(WM_LBUTTONUP, 0, mk_lparam(0, 0), false), None);

    let _ = cap.handle(WM_LBUTTONDOWN, 0, mk_lparam(1, 1), true);
    assert!(cap.mouse.is_captured());
    let lost = cap.handle(WM_CAPTURECHANGED, 0, 0, true);
    assert_eq!(lost, Some(InputEvent::CaptureLost));
    assert!(!cap.mouse.is_captured());
}

#[test]
fn mousemove_while_captured_but_button_physically_up_is_treated_as_release() {
    let mut cap = Captured::new();
    let _ = cap.handle(WM_LBUTTONDOWN, 0, mk_lparam(10, 10), true);
    assert!(cap.mouse.is_captured());

    let result = cap.handle(WM_MOUSEMOVE, 0, mk_lparam(50, 50), false);
    assert_eq!(
        result,
        Some(InputEvent::MouseUp {
            pos: Point { x: 50, y: 50 },
            modifiers: Modifiers::default(),
        })
    );
    assert!(!cap.mouse.is_captured());
    assert!(!cap.held);
}

#[test]
fn mousemove_while_captured_and_button_down_continues_dragging() {
    let mut cap = Captured::new();
    let _ = cap.handle(WM_LBUTTONDOWN, 0, mk_lparam(10, 10), true);
    let result = cap.handle(WM_MOUSEMOVE, 0, mk_lparam(20, 20), true);
    assert_eq!(
        result,
        Some(InputEvent::MouseMove {
            pos: Point { x: 20, y: 20 },
            modifiers: Modifiers::default(),
            dragging: true,
        })
    );
    assert!(cap.mouse.is_captured());
}

#[test]
fn mousemove_with_same_position_while_dragging_is_suppressed() {
    let mut cap = Captured::new();
    let _ = cap.handle(WM_LBUTTONDOWN, 0, mk_lparam(10, 10), true);
    let first = cap.handle(WM_MOUSEMOVE, 0, mk_lparam(20, 20), true);
    assert!(first.is_some());

    let duplicate = cap.handle(WM_MOUSEMOVE, 0, mk_lparam(20, 20), true);
    assert_eq!(duplicate, None);
    assert!(cap.mouse.is_captured());

    let moved = cap.handle(WM_MOUSEMOVE, 0, mk_lparam(30, 30), true);
    assert_eq!(
        moved,
        Some(InputEvent::MouseMove {
            pos: Point { x: 30, y: 30 },
            modifiers: Modifiers::default(),
            dragging: true,
        })
    );
}

#[test]
fn force_release_clears_captured_state_and_os_capture() {
    let mut cap = Captured::new();
    let _ = cap.handle(WM_LBUTTONDOWN, 0, mk_lparam(1, 1), true);
    assert!(cap.mouse.is_captured());
    assert!(cap.held);

    assert_eq!(cap.mouse.force_release(), CaptureOp::Release);
    assert!(!cap.mouse.is_captured());
}

#[test]
fn force_release_without_prior_capture_is_a_harmless_no_op() {
    let mut mouse = MouseCapture::default();
    assert!(!mouse.is_captured());
    mouse.force_release();
    assert!(!mouse.is_captured());
}

#[test]
fn a_window_that_may_not_hold_the_mouse_still_tells_of_it() {
    let mouse = MouseCapture::new();
    let pos = Point { x: 3, y: -4 };
    let modifiers = Modifiers::default();
    let lparam = mk_lparam(3, -4);
    assert_eq!(
        mouse.handle_message_no_capture(WM_LBUTTONDOWN, lparam),
        Some(InputEvent::MouseDown { pos, modifiers })
    );
    assert_eq!(
        mouse.handle_message_no_capture(WM_MOUSEMOVE, lparam),
        Some(InputEvent::MouseMove { pos, modifiers, dragging: false })
    );
    assert_eq!(
        mouse.handle_message_no_capture(WM_LBUTTONUP, lparam),
        Some(InputEvent::MouseUp { pos, modifiers })
    );
    assert_eq!(mouse.handle_message_no_capture(WM_CAPTURECHANGED, lparam), None);
}

#[test]
fn cursor_manager_set_shape_idempotent() {
    let mut cm = CursorManager::new();
    assert_eq!(cm.current(), CursorShape::Arrow);
    assert!(!cm.set_shape(CursorShape::Arrow));
    assert!(cm.set_shape(CursorShape::Move));
    assert_eq!(cm.current(), CursorShape::Move);
    assert!(cm.set_shape(CursorShape::Rotate(-135)));
    assert_eq!(cm.current(), CursorShape::Rotate(-135));
}

#[test]
fn set_cursor_message_handling() {
    let cm = CursorManager::new();
    assert_eq!(cm.handle_set_cursor(HTCLIENT as isize), Some(1));
    assert_eq!(cm.handle_set_cursor(2), None);
}

#[test]
fn cursor_set_caches_rotate_cursor_by_angle_bucket() {
    let mut cache = RotateCache::new();
    let mut next = 100;
    let mut rotate = |cache: &mut RotateCache, angle: i32| match cache.lookup(angle) {
        Some(cursor) => cursor,
        None => {
            next += 1;
            cache.made(angle, Some(next), 1)
        }
    };
    let a1 = rotate(&mut cache, 45);
    let a2 = rotate(&mut cache, 45);
    let b = rotate(&mut cache, -45);
    assert_eq!(a1, a2);
    assert_ne!(a1, b);
    assert_eq!(cache.cursors.len(), 2);
    // A cursor that could not be made is stood in for, and tried again.
    assert_eq!(cache.made(90, None, 1), 1);
    assert_eq!(cache.lookup(90), None);
}

const ARC_RADIUS: f64 = 11.0;
const ARC_SPAN_DEG: f64 = 100.0;
const ARC_THICKNESS: f64 = 2.2;
const HEAD_LEN: f64 = 4.5;
const HEAD_SPREAD_DEG: f64 = 55.0;

/// How many of its four sample points the figure of the rotation cursor covers,
/// pixel by pixel.
fn sampled(base_angle_deg: f64) -> Vec<u8> {
    let n = ROTATE_CURSOR_SIZE;
    let (cx, cy) = (0.5 * n as f64, 0.5 * n as f64);
    let (r, h) = (ARC_RADIUS, ARC_THICKNESS / 2.0);
    let span = ARC_SPAN_DEG.to_radians();
    let base = base_angle_deg.to_radians();
    let (start, end) = (base - span / 2.0, base + span / 2.0);
    let in_arc = |x: f64, y: f64| {
        let (dx, dy) = (x - cx, y - cy);
        if ((dx * dx + dy * dy).sqrt() - r).abs() > h {
            return false;
        }
        let mut angle = dy.atan2(dx);
        if angle < start {
            angle += 2.0 * std::f64::consts::PI;
        }
        (start..=end).contains(&angle)
    };
    let side = |a: (f64, f64), b: (f64, f64), c: (f64, f64)| {
        (a.0 - c.0) * (b.1 - c.1) - (b.0 - c.0) * (a.1 - c.1)
    };
    let in_triangle = |p: (f64, f64), t: [(f64, f64); 3]| {
        let d = [side(p, t[0], t[1]), side(p, t[1], t[2]), side(p, t[2], t[0])];
        !(d.iter().any(|v| *v < 0.0) && d.iter().any(|v| *v > 0.0))
    };
    let head = |angle: f64, reversed: bool| {
        let (tx, ty) = (cx + r * angle.cos(), cy + r * angle.sin());
        let mut dir = angle + std::f64::consts::FRAC_PI_2;
        if reversed {
            dir += std::f64::consts::PI;
        }
        let perp = dir + std::f64::consts::FRAC_PI_2;
        let spread = HEAD_LEN * (HEAD_SPREAD_DEG.to_radians() / 2.0).tan() * 2.0;
        [
            (tx + HEAD_LEN * dir.cos(), ty + HEAD_LEN * dir.sin()),
            (tx + spread * perp.cos(), ty + spread * perp.sin()),
            (tx - spread * perp.cos(), ty - spread * perp.sin()),
        ]
    };
    let heads = [head(start, true), head(end, false)];
    let mut hits = vec![0u8; n * n];
    for py in 0..n {
        for px in 0..n {
            for (sx, sy) in [(0.25, 0.25), (0.75, 0.25), (0.25, 0.75), (0.75, 0.75)] {
                let p = (px as f64 + sx, py as f64 + sy);
                if in_arc(p.0, p.1) || heads.iter().any(|t| in_triangle(p, *t)) {
                    hits[py * n + px] += 1;
                }
            }
        }
    }
    hits
}

#[test]
fn rotate_cursor_rgba_has_expected_size() {
    let rgba = rotate_cursor_rgba(&sampled(45.0));
    assert_eq!(rgba.len(), ROTATE_CURSOR_SIZE * ROTATE_CURSOR_SIZE * 4);
}

#[test]
fn rotate_cursor_rgba_has_white_fill_black_outline_and_transparent_background() {
    let rgba = rotate_cursor_rgba(&sampled(45.0));
    let pixels: Vec<(u8, u8, u8, u8)> = rgba
        .chunks_exact(4)
        .map(|p| (p[0], p[1], p[2], p[3]))
        .collect();
    assert!(pixels.iter().any(|&(r, g, b, a)| r == 255 && g == 255 && b == 255 && a == 255));
    assert!(pixels.iter().any(|&(r, g, b, a)| r == 0 && g == 0 && b == 0 && a == 255));
    assert!(pixels.iter().any(|&(_, _, _, a)| a == 0));
}

#[test]
fn rotate_cursor_rgba_center_is_transparent() {
    let rgba = rotate_cursor_rgba(&sampled(45.0));
    let n = ROTATE_CURSOR_SIZE;
    let (cx, cy) = (n / 2, n / 2);
    let i = (cy * n + cx) * 4;
    assert_eq!(rgba[i + 3], 0);
}

#[test]
fn rotate_cursor_rgba_different_angles_give_different_rasters() {
    let a = rotate_cursor_rgba(&sampled(45.0));
    let b = rotate_cursor_rgba(&sampled(-45.0));
    let c = rotate_cursor_rgba(&sampled(135.0));
    assert_ne!(a, b);
    assert_ne!(a, c);
    assert_ne!(b, c);
}

#[test]
fn a_single_covered_pixel_is_outlined() {
    let n = ROTATE_CURSOR_SIZE;
    let mut hits = vec![0u8; n * n];
    hits[0] = 4;
    hits[10 * n + 10] = 2;
    hits[20 * n + 20] = 3;
    let rgba = rotate_cursor_rgba(&hits);
    let pixel = |x: usize, y: usize| rgba[(y * n + x) * 4..(y * n + x) * 4 + 4].to_vec();
    assert_eq!(pixel(0, 0), vec![255, 255, 255, 255]);
    assert_eq!(pixel(1, 1), vec![0, 0, 0, 255]);
    assert_eq!(pixel(2, 0), vec![0, 0, 0, 0]);
    // Half a pixel is drawn, but not outlined.
    assert_eq!(pixel(10, 10), vec![255, 255, 255, 128]);
    assert_eq!(pixel(11, 10), vec![0, 0, 0, 0]);
    assert_eq!(pixel(20, 20), vec![255, 255, 255, 191]);
    assert_eq!(pixel(19, 21), vec![0, 0, 0, 255]);
}

#[test]
fn colours_are_multiplied_by_opacity_and_turned_around() {
    assert_eq!(
        premultiplied_bgra(&vec![255, 128, 0, 255, 200, 100, 50, 0]),
        vec![0, 128, 255, 255, 0, 0, 0, 0]
    );
    assert_eq!(premultiplied_bgra(&vec![255, 255, 255, 128]), vec![128, 128, 128, 128]);
}
