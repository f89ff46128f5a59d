//! What the windows of a piece are created with.

use vstd::prelude::*;

use crate::crop_window::drag::DragTracker;
use crate::crop_window::geometry::{dimensions, spec_dimensions, spec_strip_rect, strip_rect};
use crate::crop_window::state::WindowState;
use crate::crop_window::{Point, SourceRect, StripHit};
use crate::model::Rect;
use crate::num::{larger, max_u32};
use crate::text::{blank, chars_of, is_blank};
use crate::utf16::{encoded, encoded_z, to_wide, utf16};
use crate::winapi::{
    WS_EX_APPWINDOW, WS_EX_NOACTIVATE, WS_EX_TOOLWINDOW, WS_EX_TOPMOST, WS_POPUP, WS_THICKFRAME,
};

verus! {

/// The density at which a device independent pixel is a physical one.
pub const DEFAULT_DPI: u32 = 96;

/// The class of both windows of a piece.
pub const WINDOW_CLASS: &'static str = "resticker_crop_window";

/// The settings of a piece's two windows.
#[derive(Debug, Clone, PartialEq, Eq)]
pub struct CropWindowOptions {
    /// Place and size of the content window, in physical pixels.
    pub bounds: Rect,
    /// The top edge of the monitor: the strip stays below it.
    pub screen_top: i32,
    pub dpi: u32,
    /// The part of the source window to show.
    pub source_rect: SourceRect,
    /// The caption on the strip.
    pub app_name: String,
    /// What the task switcher calls the piece; a blank one leaves it to the
    /// caption.
    pub window_title: String,
    /// Opacity of the preview.
    pub opacity: u8,
    /// Keep the piece above all windows.
    pub always_on_top: bool,
}

impl CropWindowOptions {
    /// Settings at the standard density, opaque and in the ordinary band, with
    /// the monitor taken to start where the piece does.
    pub fn new(bounds: Rect, source_rect: SourceRect, app_name: &str) -> (r: Self)
        ensures
            r.bounds == bounds,
            r.screen_top == bounds.y,
            r.dpi == DEFAULT_DPI,
            r.source_rect == source_rect,
            r.app_name@ == app_name@,
            r.window_title@.len() == 0,
            r.opacity == u8::MAX,
            !r.always_on_top,
    {
        Self {
            bounds,
            screen_top: bounds.y,
            dpi: DEFAULT_DPI,
            source_rect,
            window_title: String::new(),
            app_name: app_name.to_owned(),
            opacity: u8::MAX,
            always_on_top: false,
        }
    }

    /// What the task switcher calls the piece.
    pub open spec fn title(self) -> Seq<char> {
        if blank(self.window_title@) {
            self.app_name@
        } else {
            self.window_title@
        }
    }
}

/// Why a piece's windows could not be had.
#[derive(Debug, Clone, Copy, PartialEq, Eq, Structural)]
pub enum CropWindowError {
    /// There is nothing to show.
    CreateFailed,
    /// The thread of the windows ended before they were there.
    ThreadCrashed,
    /// The system refused, with this code.
    Win32(i32),
}

/// One window to create.
#[derive(Debug, Clone, Copy, PartialEq, Eq, Structural)]
pub struct Frame {
    pub ex_style: u32,
    pub style: u32,
    pub x: i32,
    pub y: i32,
    pub w: i32,
    pub h: i32,
}

/// A frame over a rectangle.
pub open spec fn spec_frame(ex_style: u32, style: u32, rect: Rect) -> Frame {
    Frame {
        ex_style,
        style,
        x: rect.x,
        y: rect.y,
        w: spec_dimensions(rect).0,
        h: spec_dimensions(rect).1,
    }
}

fn frame(ex_style: u32, style: u32, rect: Rect) -> (r: Frame)
    ensures
        r == spec_frame(ex_style, style, rect),
{
    let (w, h) = dimensions(rect);
    Frame { ex_style, style, x: rect.x, y: rect.y, w, h }
}

/// The two windows to create and the state they start in.
#[derive(Debug, PartialEq, Eq)]
pub struct WindowPlan {
    pub content: Frame,
    /// The strip is owned by the content window.
    pub strip: Frame,
    /// The content window's title, ended by a zero.
    pub title: Vec<u16>,
    /// The caption.
    pub caption: Vec<u16>,
    pub state: WindowState,
}

/// The extended style of the content window: a window of its own in the task
/// switcher, above all others only where that is asked for.
pub open spec fn content_ex_style(always_on_top: bool) -> u32 {
    if always_on_top {
        WS_EX_TOPMOST | WS_EX_APPWINDOW
    } else {
        WS_EX_APPWINDOW
    }
}

/// The extended style of the strip: in the same band, but kept out of the task
/// switcher and never active.
pub open spec fn strip_ex_style(always_on_top: bool) -> u32 {
    if always_on_top {
        WS_EX_TOPMOST | WS_EX_TOOLWINDOW | WS_EX_NOACTIVATE
    } else {
        WS_EX_TOOLWINDOW | WS_EX_NOACTIVATE
    }
}

/// The state of windows that are just there: nothing under the cursor, nothing
/// moving, no preview yet.
pub open spec fn initial_state(options: CropWindowOptions) -> WindowState {
    WindowState {
        thumbnail: None,
        content_rect: options.bounds,
        normal_rect: options.bounds,
        screen_top: options.screen_top,
        dpi: larger(options.dpi as int, 1) as u32,
        source_rect: options.source_rect,
        opacity: options.opacity,
        minimized: false,
        always_on_top: options.always_on_top,
        hover_content: false,
        hover_strip: false,
        hover_button: StripHit::Nothing,
        self_move: false,
        in_size_move: false,
        drag: DragTracker {
            active: false,
            offset: Point { x: 0, y: 0 },
            current: Point { x: 0, y: 0 },
        },
        source_gone_sent: false,
    }
}

/// The content window to create.
pub open spec fn content_frame(options: CropWindowOptions) -> Frame {
    spec_frame(
        content_ex_style(options.always_on_top),
        WS_POPUP | WS_THICKFRAME,
        options.bounds,
    )
}

/// The strip to create.
pub open spec fn strip_frame(options: CropWindowOptions) -> Frame {
    spec_frame(
        strip_ex_style(options.always_on_top),
        WS_POPUP,
        spec_strip_rect(options.bounds, options.screen_top, options.dpi),
    )
}

/// Plan the two windows of a piece. A piece without extent cannot be created.
pub fn plan_windows(options: &CropWindowOptions) -> (r: Result<WindowPlan, CropWindowError>)
    ensures
        match r {
            Ok(plan) => {
                let strip = spec_strip_rect(options.bounds, options.screen_top, options.dpi);
                &&& options.bounds.w != 0
                &&& options.bounds.h != 0
                &&& plan.content == spec_frame(
                    content_ex_style(options.always_on_top),
                    WS_POPUP | WS_THICKFRAME,
                    options.bounds,
                )
                &&& plan.strip == spec_frame(
                    strip_ex_style(options.always_on_top),
                    WS_POPUP,
                    strip,
                )
                &&& plan.content == content_frame(*options)
                &&& plan.strip == strip_frame(*options)
                &&& plan.title@ == encoded_z(options.title())
                &&& plan.caption@ == encoded(options.app_name@)
                &&& plan.state == initial_state(*options)
            },
            Err(e) => e == CropWindowError::CreateFailed && (options.bounds.w == 0
                || options.bounds.h == 0),
        },
{
    if options.bounds.w == 0 || options.bounds.h == 0 {
        return Err(CropWindowError::CreateFailed);
    }
    let content_style: u32 = if options.always_on_top {
        WS_EX_TOPMOST | WS_EX_APPWINDOW
    } else {
        WS_EX_APPWINDOW
    };
    let strip_style: u32 = if options.always_on_top {
        WS_EX_TOPMOST | WS_EX_TOOLWINDOW | WS_EX_NOACTIVATE
    } else {
        WS_EX_TOOLWINDOW | WS_EX_NOACTIVATE
    };
    let title = if is_blank(&chars_of(options.window_title.as_str())) {
        to_wide(options.app_name.as_str())
    } else {
        to_wide(options.window_title.as_str())
    };
    Ok(
        WindowPlan {
            content: frame(content_style, WS_POPUP | WS_THICKFRAME, options.bounds),
            strip: frame(
                strip_style,
                WS_POPUP,
                strip_rect(options.bounds, options.screen_top, options.dpi),
            ),
            title,
            caption: utf16(options.app_name.as_str()),
            state: WindowState {
                thumbnail: None,
                content_rect: options.bounds,
                normal_rect: options.bounds,
                screen_top: options.screen_top,
                dpi: max_u32(options.dpi, 1),
                source_rect: options.source_rect,
                opacity: options.opacity,
                minimized: false,
                always_on_top: options.always_on_top,
                hover_content: false,
                hover_strip: false,
                hover_button: StripHit::Nothing,
                self_move: false,
                in_size_move: false,
                drag: DragTracker::new(),
                source_gone_sent: false,
            },
        },
    )
}

/// The styles of a piece's windows by their bits: the content has a place in the
/// task switcher (0x40000); the strip is a tool window (0x80) without focus
/// (0x8000000); both are above all windows (0x8) where that is asked for.
pub proof fn styles_by_their_bits(on_top: bool)
    ensures
        content_ex_style(on_top) == 0x4_0000 + (if on_top {
            8int
        } else {
            0
        }),
        strip_ex_style(on_top) == 0x80 + 0x800_0000 + (if on_top {
            8int
        } else {
            0
        }),
        WS_POPUP | WS_THICKFRAME == 0x8004_0000,
{
    assert(0x8u32 | 0x4_0000u32 == 0x4_0008u32 && 0x8u32 | 0x80u32 | 0x800_0000u32 == 0x800_0088u32
        && 0x80u32 | 0x800_0000u32 == 0x800_0080u32 && 0x8000_0000u32 | 0x4_0000u32
        == 0x8004_0000u32) by (bit_vector);
}

/// A piece starts where its settings put it, and would be restored there; it is
/// neither minimized nor under the cursor, nothing moves it, and it has no preview
/// yet. A density of zero counts as one.
pub proof fn piece_starts_at_rest(options: CropWindowOptions)
    ensures
        ({
            let s = initial_state(options);
            &&& s.content_rect == options.bounds && s.normal_rect == options.bounds
            &&& s.screen_top == options.screen_top
            &&& options.dpi > 0 ==> s.dpi == options.dpi
            &&& options.dpi == 0 ==> s.dpi == 1
            &&& s.source_rect == options.source_rect
            &&& s.opacity == options.opacity
            &&& s.always_on_top == options.always_on_top
            &&& s.thumbnail is None && !s.source_gone_sent
            &&& !s.minimized && !s.self_move && !s.in_size_move && !s.drag.active
            &&& !s.hover_content && !s.hover_strip && s.hover_button is Nothing
        }),
{
}

/// A piece is called by its title, and by its caption where that has nothing but
/// blanks.
pub proof fn piece_has_a_name(options: CropWindowOptions)
    ensures
        (exists|i: int|
            0 <= i < options.window_title@.len() && !crate::text::white(
                #[trigger] options.window_title@[i],
            )) ==> options.title() == options.window_title@,
        (forall|i: int|
            0 <= i < options.window_title@.len() ==> crate::text::white(
                #[trigger] options.window_title@[i],
            )) ==> options.title() == options.app_name@,
{
}

/// A window is created over its rectangle.
pub proof fn frame_lies_over_its_rectangle(ex_style: u32, style: u32, rect: Rect)
    requires
        rect.w <= i32::MAX,
        rect.h <= i32::MAX,
    ensures
        spec_frame(ex_style, style, rect) == (Frame {
            ex_style,
            style,
            x: rect.x,
            y: rect.y,
            w: rect.w as i32,
            h: rect.h as i32,
        }),
{
}

/// The content is created over its bounds, with a frame to resize it by
/// (0x80040000). The strip is created over its top edge, as wide as it and no higher
/// than the top of the screen, twenty-eight device independent pixels high, and
/// without a frame (0x80000000).
pub proof fn windows_are_created_in_their_places(options: CropWindowOptions)
    requires
        options.bounds.w <= i32::MAX,
        options.bounds.h <= i32::MAX,
    ensures
        ({
            let content = content_frame(options);
            let strip = strip_frame(options);
            let b = options.bounds;
            let top: int = if options.always_on_top {
                8
            } else {
                0
            };
            let d = if options.dpi == 0 {
                1int
            } else {
                options.dpi as int
            };
            &&& content.x == b.x && content.y == b.y && content.w == b.w && content.h == b.h
            &&& content.style == 0x8004_0000
            &&& content.ex_style == 0x4_0000 + top
            &&& strip.x == b.x && strip.w == b.w
            &&& strip.y >= b.y && strip.y >= options.screen_top
            &&& strip.y == b.y || strip.y == options.screen_top
            &&& strip.h >= 1
            &&& 28 * d < 48 ==> strip.h == 1
            &&& 28 * d >= 48 ==> 96 * strip.h - 48 <= 28 * d < 96 * strip.h + 48
            &&& strip.style == 0x8000_0000
            &&& strip.ex_style == 0x80 + 0x800_0000 + top
        }),
{
    styles_by_their_bits(options.always_on_top);
    crate::crop_window::geometry::strip_is_placed(
        options.bounds,
        options.screen_top,
        options.dpi,
    );
}

} // verus!
