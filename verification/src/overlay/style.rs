//! Where an overlay window is, which part of it there is, and how it takes the
//! mouse by its style.

use vstd::prelude::*;

use crate::error::Win32Error;
use crate::model::{span, Edges, Rect};
use crate::num::{clamp_i32, larger, saturating_minus, smaller};
use crate::overlay::OverlayInputPolicy;
use crate::winapi::{
    WS_EX_LAYERED, WS_EX_NOACTIVATE, WS_EX_NOREDIRECTIONBITMAP, WS_EX_TOOLWINDOW, WS_EX_TOPMOST,
    WS_EX_TRANSPARENT, WS_POPUP,
};

verus! {

pub const CLASS_NAME: &'static str = "resticker_overlay";

pub const WINDOW_TITLE: &'static str = "resticker_overlay_wnd";

/// The window is left out of screen captures.
pub const WDA_EXCLUDEFROMCAPTURE: u32 = 0x11;

pub const WDA_NONE: u32 = 0;

/// Bits to set in an extended style, and bits to clear.
#[derive(Debug, Clone, Copy, PartialEq, Eq, Structural)]
pub struct Masks {
    pub set: u32,
    pub clear: u32,
}

impl Masks {
    /// The style with the bits changed.
    pub open spec fn applied(self, ex: u32) -> u32 {
        (ex & !self.clear) | self.set
    }

    /// Change the bits of a style, all at once.
    pub fn apply(&self, ex: u32) -> (r: u32)
        ensures
            r == self.applied(ex),
    {
        (ex & !self.clear) | self.set
    }
}

/// Bits to set or to clear.
pub open spec fn toggled(bits: u32, set: bool) -> Masks {
    if set {
        Masks { set: bits, clear: 0 }
    } else {
        Masks { set: 0, clear: bits }
    }
}

/// Bits to set or to clear.
pub fn toggle_exstyle(bits: u32, set: bool) -> (r: Masks)
    ensures
        r == toggled(bits, set),
{
    if set {
        Masks { set: bits, clear: 0 }
    } else {
        Masks { set: 0, clear: bits }
    }
}

/// The bits for a window that the mouse goes through and that takes no focus,
/// or for one that takes both.
pub fn set_exstyle_bits(click_through: bool) -> (r: Masks)
    ensures
        r == toggled(WS_EX_TRANSPARENT | WS_EX_NOACTIVATE, click_through),
{
    toggle_exstyle(WS_EX_TRANSPARENT | WS_EX_NOACTIVATE, click_through)
}

/// The bits for a window that takes clicks but no focus, or no clicks any more.
pub fn set_hover_click_target(target: bool) -> (r: Masks)
    ensures
        r == toggled(WS_EX_TRANSPARENT, !target),
{
    toggle_exstyle(WS_EX_TRANSPARENT, !target)
}

/// Whether the mouse goes through a window with this policy, and whether the
/// window refuses the focus.
pub open spec fn passes_and_refuses(policy: OverlayInputPolicy) -> (bool, bool) {
    match policy {
        OverlayInputPolicy::Transparent => (true, true),
        OverlayInputPolicy::Interactive { .. } => (false, false),
        OverlayInputPolicy::HitRects(_) => (false, true),
        OverlayInputPolicy::HoverTarget => (false, true),
    }
}

/// The bits of a policy.
pub open spec fn policy_masks(policy: OverlayInputPolicy) -> Masks {
    let (passes, refuses) = passes_and_refuses(policy);
    Masks {
        set: (if passes {
            WS_EX_TRANSPARENT
        } else {
            0
        }) | (if refuses {
            WS_EX_NOACTIVATE
        } else {
            0
        }),
        clear: (if passes {
            0
        } else {
            WS_EX_TRANSPARENT
        }) | (if refuses {
            0
        } else {
            WS_EX_NOACTIVATE
        }),
    }
}

/// The bits of a policy.
pub fn masks_of_policy(policy: &OverlayInputPolicy) -> (r: Masks)
    ensures
        r == policy_masks(*policy),
{
    let (passes, refuses) = match policy {
        OverlayInputPolicy::Transparent => (true, true),
        OverlayInputPolicy::Interactive { .. } => (false, false),
        OverlayInputPolicy::HitRects(_) => (false, true),
        OverlayInputPolicy::HoverTarget => (false, true),
    };
    let set_passes: u32 = if passes {
        WS_EX_TRANSPARENT
    } else {
        0
    };
    let set_refuses: u32 = if refuses {
        WS_EX_NOACTIVATE
    } else {
        0
    };
    let clear_passes: u32 = if passes {
        0
    } else {
        WS_EX_TRANSPARENT
    };
    let clear_refuses: u32 = if refuses {
        0
    } else {
        WS_EX_NOACTIVATE
    };
    Masks { set: set_passes | set_refuses, clear: clear_passes | clear_refuses }
}

/// After a policy the two bits are as the policy says, whatever they were, and
/// every other bit is as it was.
pub proof fn policy_decides_its_bits(policy: OverlayInputPolicy, ex: u32)
    ensures
        ({
            let (passes, refuses) = passes_and_refuses(policy);
            let after = policy_masks(policy).applied(ex);
            &&& (after & WS_EX_TRANSPARENT != 0) == passes
            &&& (after & WS_EX_NOACTIVATE != 0) == refuses
            &&& after & !(WS_EX_TRANSPARENT | WS_EX_NOACTIVATE) == ex & !(WS_EX_TRANSPARENT
                | WS_EX_NOACTIVATE)
        }),
{
    let (passes, refuses) = passes_and_refuses(policy);
    let st: u32 = if passes {
        WS_EX_TRANSPARENT
    } else {
        0
    };
    let sn: u32 = if refuses {
        WS_EX_NOACTIVATE
    } else {
        0
    };
    let ct: u32 = if passes {
        0
    } else {
        WS_EX_TRANSPARENT
    };
    let cn: u32 = if refuses {
        0
    } else {
        WS_EX_NOACTIVATE
    };
    let after = (ex & !(ct | cn)) | (st | sn);
    assert((after & 0x20u32 != 0u32) == (st != 0u32) && (after & 0x8000000u32 != 0u32) == (sn
        != 0u32) && after & !(0x20u32 | 0x8000000u32) == ex & !(0x20u32 | 0x8000000u32))
        by (bit_vector)
        requires
            after == (ex & !(ct | cn)) | (st | sn),
            (st == 0x20u32 && ct == 0u32) || (st == 0u32 && ct == 0x20u32),
            (sn == 0x8000000u32 && cn == 0u32) || (sn == 0u32 && cn == 0x8000000u32),
    ;
}

/// Whether a window with this extended style lets the mouse through.
pub fn is_click_through(ex: u32) -> (r: bool)
    ensures
        r == (ex & WS_EX_TRANSPARENT != 0),
{
    ex & WS_EX_TRANSPARENT != 0
}

/// A window to create.
#[derive(Debug, Clone, Copy, PartialEq, Eq, Structural)]
pub struct OverlayPlan {
    pub ex_style: u32,
    pub style: u32,
    pub x: i32,
    pub y: i32,
    pub w: i32,
    pub h: i32,
}

/// The window for a monitor: above everything, out of the task bar, without
/// focus, and the mouse goes through it.
pub open spec fn overlay_plan(bounds: Rect) -> OverlayPlan {
    OverlayPlan {
        ex_style: WS_EX_TOPMOST | WS_EX_TOOLWINDOW | WS_EX_NOACTIVATE | WS_EX_TRANSPARENT
            | WS_EX_NOREDIRECTIONBITMAP | WS_EX_LAYERED,
        style: WS_POPUP,
        x: bounds.x,
        y: bounds.y,
        w: bounds.w as i32,
        h: bounds.h as i32,
    }
}

/// Bounds that a window can have.
pub open spec fn has_extent(bounds: Rect) -> bool {
    bounds.w != 0 && bounds.h != 0
}

/// Plan the window for a monitor. Bounds without an extent make no window.
pub fn plan_window(bounds: Rect) -> (r: Result<OverlayPlan, Win32Error>)
    ensures
        r is Ok <==> has_extent(bounds),
        r == (if bounds.w == 0 || bounds.h == 0 {
            Err::<OverlayPlan, Win32Error>(Win32Error::OverlayWindowCreateFailed)
        } else {
            Ok(overlay_plan(bounds))
        }),
{
    if bounds.w == 0 || bounds.h == 0 {
        return Err(Win32Error::OverlayWindowCreateFailed);
    }
    Ok(
        OverlayPlan {
            ex_style: WS_EX_TOPMOST | WS_EX_TOOLWINDOW | WS_EX_NOACTIVATE | WS_EX_TRANSPARENT
                | WS_EX_NOREDIRECTIONBITMAP | WS_EX_LAYERED,
            style: WS_POPUP,
            x: bounds.x,
            y: bounds.y,
            w: bounds.w as i32,
            h: bounds.h as i32,
        },
    )
}

/// The bounds of a screen of this size; a size that is not positive is none.
pub fn screen_bounds(width: i32, height: i32) -> (r: Rect)
    ensures
        r == (Rect { x: 0, y: 0, w: span(0, width), h: span(0, height) }),
{
    Edges { left: 0, top: 0, right: width, bottom: height }.to_rect()
}

/// The size of a window with these edges; one whose edges could not be read has
/// none.
pub fn window_size(edges: Option<Edges>) -> (r: (u32, u32))
    ensures
        r == (match edges {
            Some(e) => (span(e.left, e.right), span(e.top, e.bottom)),
            None => (0, 0),
        }),
{
    match edges {
        Some(e) => {
            let rect = e.to_rect();
            (rect.w, rect.h)
        },
        None => (0, 0),
    }
}

/// The part of a window that a hole on the screen takes away, in the window's
/// own coordinates.
pub open spec fn cut_of(window: Edges, hole: Edges) -> Edges {
    Edges {
        left: larger(clamp_i32(hole.left - window.left) as int, 0) as i32,
        top: larger(clamp_i32(hole.top - window.top) as int, 0) as i32,
        right: smaller(
            clamp_i32(hole.right - window.left) as int,
            clamp_i32(window.right - window.left) as int,
        ) as i32,
        bottom: smaller(
            clamp_i32(hole.bottom - window.top) as int,
            clamp_i32(window.bottom - window.top) as int,
        ) as i32,
    }
}

/// The region that a window is cut down to: all of it, without a part.
#[derive(Debug, Clone, Copy, PartialEq, Eq, Structural)]
pub struct HoleRegion {
    pub w: i32,
    pub h: i32,
    pub cut: Edges,
}

/// The region of a window with a hole in it; none where the hole takes nothing
/// away, so that the window is whole.
pub open spec fn region_of(window: Edges, hole: Option<Edges>) -> Option<HoleRegion> {
    match hole {
        Some(hole) => {
            let cut = cut_of(window, hole);
            if cut.right <= cut.left || cut.bottom <= cut.top {
                None
            } else {
                Some(
                    HoleRegion {
                        w: clamp_i32(window.right - window.left),
                        h: clamp_i32(window.bottom - window.top),
                        cut,
                    },
                )
            }
        },
        None => None,
    }
}

fn held_above(n: i32) -> (r: i32)
    ensures
        r == larger(n as int, 0),
{
    if n >= 0 {
        n
    } else {
        0
    }
}

fn held_below(n: i32, top: i32) -> (r: i32)
    ensures
        r == smaller(n as int, top as int),
{
    if n <= top {
        n
    } else {
        top
    }
}

/// The region of a window with a hole in it.
pub fn hole_region(window: Edges, hole: Option<Edges>) -> (r: Option<HoleRegion>)
    ensures
        r == region_of(window, hole),
{
    let hole = match hole {
        Some(hole) => hole,
        None => {
            return None;
        },
    };
    let w: i32 = saturating_minus(window.right, window.left);
    let h: i32 = saturating_minus(window.bottom, window.top);
    let cut = Edges {
        left: held_above(saturating_minus(hole.left, window.left)),
        top: held_above(saturating_minus(hole.top, window.top)),
        right: held_below(saturating_minus(hole.right, window.left), w),
        bottom: held_below(saturating_minus(hole.bottom, window.top), h),
    };
    if cut.right <= cut.left || cut.bottom <= cut.top {
        return None;
    }
    Some(HoleRegion { w, h, cut })
}

/// A point of the window is taken away exactly where the hole is: what is cut
/// lies within the window, and is the hole's own part of it.
pub proof fn hole_takes_its_part(window: Edges, hole: Edges, x: int, y: int)
    requires
        window.left <= window.right,
        window.top <= window.bottom,
        window.right - window.left <= i32::MAX,
        window.bottom - window.top <= i32::MAX,
        window.left <= x < window.right,
        window.top <= y < window.bottom,
    ensures
        (hole.left <= x < hole.right && hole.top <= y < hole.bottom) <==> (region_of(
            window,
            Some(hole),
        ) matches Some(region) && region.cut.left <= x - window.left < region.cut.right
            && region.cut.top <= y - window.top < region.cut.bottom),
        region_of(window, Some(hole)) matches Some(region) ==> 0 <= region.cut.left
            && region.cut.right <= region.w && 0 <= region.cut.top && region.cut.bottom
            <= region.h,
{
}

/// The affinity to ask for.
pub open spec fn wanted_affinity(hide: bool) -> u32 {
    if hide {
        WDA_EXCLUDEFROMCAPTURE
    } else {
        WDA_NONE
    }
}

/// The affinity to ask for so that a window is left out of screen captures, or
/// is in them again.
pub fn capture_affinity(hide: bool) -> (r: u32)
    ensures
        r == wanted_affinity(hide),
{
    if hide {
        WDA_EXCLUDEFROMCAPTURE
    } else {
        WDA_NONE
    }
}

/// Whether the affinity that was asked for was really taken up.
pub open spec fn affinity_taken(hide: bool, set: Result<(), i32>, got: Result<u32, i32>) -> Result<
    bool,
    Win32Error,
> {
    match (set, got) {
        (Err(code), _) => Err(Win32Error::Win32(code)),
        (Ok(_), Err(code)) => Err(Win32Error::Win32(code)),
        (Ok(_), Ok(actual)) => Ok(actual == wanted_affinity(hide)),
    }
}

/// Whether the affinity that was asked for was really taken up. `set` and `got`
/// are what came of asking and of reading it back.
pub fn set_capture_affinity(hide: bool, set: Result<(), i32>, got: Result<u32, i32>) -> (r: Result<
    bool,
    Win32Error,
>)
    ensures
        r == affinity_taken(hide, set, got),
        r == (match (set, got) {
            (Err(code), _) => Err::<bool, Win32Error>(Win32Error::Win32(code)),
            (Ok(_), Err(code)) => Err(Win32Error::Win32(code)),
            (Ok(_), Ok(actual)) => Ok(actual == wanted_affinity(hide)),
        }),
{
    if let Err(code) = set {
        return Err(Win32Error::Win32(code));
    }
    match got {
        Ok(actual) => Ok(actual == capture_affinity(hide)),
        Err(code) => Err(Win32Error::Win32(code)),
    }
}

/// What a change of density asks of the window.
#[derive(Debug, Clone, Copy, PartialEq, Eq)]
pub struct DpiChange {
    pub dpi: u32,
    pub x: i32,
    pub y: i32,
    pub w: i32,
    pub h: i32,
    /// The size that the window then has.
    pub size: (u32, u32),
}

/// What a change of density asks of the window: the new density, and the place
/// that the system suggests. A density of nothing asks nothing.
pub open spec fn dpi_change(wparam: usize, suggested: Edges) -> Option<DpiChange> {
    let dpi = (wparam & 0xFFFF) as u32;
    if dpi == 0 {
        None
    } else {
        Some(
            DpiChange {
                dpi,
                x: suggested.left,
                y: suggested.top,
                w: clamp_i32(suggested.right - suggested.left),
                h: clamp_i32(suggested.bottom - suggested.top),
                size: (
                    span(suggested.left, suggested.right),
                    span(suggested.top, suggested.bottom),
                ),
            },
        )
    }
}

/// What a change of density asks of the window.
pub fn handle_dpi_changed(wparam: usize, suggested: Edges) -> (r: Option<DpiChange>)
    ensures
        r == dpi_change(wparam, suggested),
{
    let dpi: u32 = (wparam & 0xFFFF) as u32;
    if dpi == 0 {
        return None;
    }
    let rect = suggested.to_rect();
    Some(
        DpiChange {
            dpi,
            x: suggested.left,
            y: suggested.top,
            w: saturating_minus(suggested.right, suggested.left),
            h: saturating_minus(suggested.bottom, suggested.top),
            size: (rect.w, rect.h),
        },
    )
}

/// Bits that are switched on are all set afterwards, bits that are switched off
/// all clear, and no other bit changes.
pub proof fn switched_bits_are_switched(bits: u32, on: bool, ex: u32)
    ensures
        on ==> toggled(bits, on).applied(ex) & bits == bits,
        !on ==> toggled(bits, on).applied(ex) & bits == 0,
        toggled(bits, on).applied(ex) & !bits == ex & !bits,
{
    assert(((ex & !0u32) | bits) & bits == bits && ((ex & !bits) | 0u32) & bits == 0u32 && ((ex
        & !0u32) | bits) & !bits == ex & !bits && ((ex & !bits) | 0u32) & !bits == ex & !bits)
        by (bit_vector);
}

/// The window for a monitor covers its bounds. Its extended style is above all
/// windows (0x8), let through by the mouse (0x20), a tool window (0x80), layered
/// (0x80000), without a bitmap of its own (0x200000) and without focus
/// (0x8000000), and nothing else; its style is a bare popup.
pub proof fn window_covers_its_monitor(bounds: Rect)
    ensures
        overlay_plan(bounds).ex_style == 0x8 + 0x20 + 0x80 + 0x8_0000 + 0x20_0000 + 0x800_0000,
        overlay_plan(bounds).style == 0x8000_0000,
        overlay_plan(bounds).x == bounds.x,
        overlay_plan(bounds).y == bounds.y,
        bounds.w <= i32::MAX ==> overlay_plan(bounds).w == bounds.w,
        bounds.h <= i32::MAX ==> overlay_plan(bounds).h == bounds.h,
{
    assert(0x8u32 | 0x80u32 | 0x800_0000u32 | 0x20u32 | 0x20_0000u32 | 0x8_0000u32 == 0x8 + 0x20
        + 0x80 + 0x8_0000 + 0x20_0000 + 0x800_0000) by (bit_vector);
}

/// A region is the window's whole extent without the hole, and there is one only
/// where the hole and the window have a point in common.
pub proof fn region_is_the_window_without_the_hole(window: Edges, hole: Edges)
    requires
        window.left <= window.right,
        window.top <= window.bottom,
        window.right - window.left <= i32::MAX,
        window.bottom - window.top <= i32::MAX,
    ensures
        region_of(window, None) is None,
        region_of(window, Some(hole)) matches Some(region) ==> region.w == window.right
            - window.left && region.h == window.bottom - window.top,
        region_of(window, Some(hole)) is Some <==> exists|x: int, y: int|
            #![trigger shared_point(window, hole, x, y)]
            shared_point(window, hole, x, y),
{
    if region_of(window, Some(hole)) is Some {
        let x = larger(window.left as int, hole.left as int);
        let y = larger(window.top as int, hole.top as int);
        assert(shared_point(window, hole, x, y));
    }
    if exists|x: int, y: int|
        #![trigger shared_point(window, hole, x, y)]
        shared_point(window, hole, x, y) {
        let (x, y) = choose|x: int, y: int|
            #![trigger shared_point(window, hole, x, y)]
            shared_point(window, hole, x, y);
        hole_takes_its_part(window, hole, x, y);
    }
}

/// A point that lies in both rectangles.
pub open spec fn shared_point(a: Edges, b: Edges, x: int, y: int) -> bool {
    &&& a.left <= x < a.right && a.top <= y < a.bottom
    &&& b.left <= x < b.right && b.top <= y < b.bottom
}

/// To be left out of screen captures is 0x11, to be in them is zero.
pub proof fn affinity_by_number(hide: bool)
    ensures
        hide ==> wanted_affinity(hide) == 0x11,
        !hide ==> wanted_affinity(hide) == 0,
{
}

/// The new density is the low word of the first parameter, and zero is none; the
/// window goes to the edges that the system suggests.
pub proof fn density_moves_the_window(wparam: usize, e: Edges)
    requires
        e.left <= e.right,
        e.top <= e.bottom,
    ensures
        wparam % 0x1_0000 == 0 ==> dpi_change(wparam, e) is None,
        wparam % 0x1_0000 != 0 ==> (dpi_change(wparam, e) matches Some(c) && {
            &&& c.dpi == wparam % 0x1_0000
            &&& c.x == e.left && c.y == e.top
            &&& e.right - e.left <= i32::MAX ==> c.w == e.right - e.left
            &&& e.bottom - e.top <= i32::MAX ==> c.h == e.bottom - e.top
            &&& c.size.0 == e.right - e.left
            &&& c.size.1 == e.bottom - e.top
        }),
{
    crate::num::bits_by_place(0, wparam);
}

/// An affinity counts as taken up where reading it back gives what was asked for,
/// 0x11 to be left out of captures and zero to be in them. A failure to ask for it is
/// the error, and then a failure to read it.
pub proof fn affinity_is_read_back(hide: bool, set: Result<(), i32>, got: Result<u32, i32>, code: i32)
    ensures
        set == Err::<(), i32>(code) ==> affinity_taken(hide, set, got) == Err::<bool, Win32Error>(
            Win32Error::Win32(code),
        ),
        set is Ok && got == Err::<u32, i32>(code) ==> affinity_taken(hide, set, got) == Err::<
            bool,
            Win32Error,
        >(Win32Error::Win32(code)),
        set is Ok && got is Ok && hide ==> affinity_taken(hide, set, got) == Ok::<bool, Win32Error>(
            got->Ok_0 == 0x11,
        ),
        set is Ok && got is Ok && !hide ==> affinity_taken(hide, set, got) == Ok::<
            bool,
            Win32Error,
        >(got->Ok_0 == 0),
{
}

/// A window needs a pixel: bounds make one exactly where a point lies in them.
pub proof fn window_needs_a_pixel(bounds: Rect)
    ensures
        has_extent(bounds) <==> exists|x: int, y: int|
            #![trigger pixel_of(bounds, x, y)]
            pixel_of(bounds, x, y),
{
    if has_extent(bounds) {
        assert(pixel_of(bounds, bounds.x as int, bounds.y as int));
    }
}

/// A point that lies in a rectangle.
pub open spec fn pixel_of(r: Rect, x: int, y: int) -> bool {
    r.x <= x < r.x + r.w && r.y <= y < r.y + r.h
}

/// A suggested size that does not fit a coordinate is held at the last one, while
/// the size that is told is the true one.
pub proof fn suggested_size_is_held(wparam: usize, e: Edges)
    requires
        wparam % 0x1_0000 != 0,
    ensures
        dpi_change(wparam, e) matches Some(c) && {
            &&& e.right - e.left > i32::MAX ==> c.w == i32::MAX && c.size.0 == e.right - e.left
            &&& e.bottom - e.top > i32::MAX ==> c.h == i32::MAX && c.size.1 == e.bottom - e.top
            &&& e.right <= e.left ==> c.size.0 == 0
            &&& e.bottom <= e.top ==> c.size.1 == 0
        },
{
    crate::num::bits_by_place(0, wparam);
}

} // verus!
