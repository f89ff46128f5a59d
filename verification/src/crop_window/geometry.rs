//! Where the strip lies, what a point on it means, and how a piece is resized.

use vstd::prelude::*;

use crate::crop_window::{Point, StripHit};
use crate::model::{Edges, Rect};
use crate::num::{
    as_coordinate, clamp_i32, larger, length_as_coordinate, max_i32, max_u32, min_u32,
    saturating_minus, saturating_plus, signed_length, smaller,
};
use crate::winapi::{
    HTBOTTOM, HTBOTTOMLEFT, HTBOTTOMRIGHT, HTCLIENT, HTLEFT, HTRIGHT, HTTOP, HTTOPLEFT, HTTOPRIGHT,
    WMSZ_BOTTOM, WMSZ_BOTTOMLEFT, WMSZ_BOTTOMRIGHT, WMSZ_LEFT, WMSZ_RIGHT, WMSZ_TOP, WMSZ_TOPLEFT,
    WMSZ_TOPRIGHT,
};

verus! {

/// Height of the strip.
pub const STRIP_HEIGHT_DIP: u32 = 28;

/// Width of the band along a window edge that resizes it.
pub const RESIZE_EDGE_DIP: u32 = 6;

/// Margin around a piece inside which the cursor still counts as on it.
pub const STRIP_KEEP_MARGIN_PX: i32 = 12;

/// Device independent pixels as physical ones: rounded to the nearest, and
/// never less than one.
pub open spec fn spec_dip_to_px(dip: u32, dpi: u32) -> u32 {
    larger((dip * dpi + 48) / 96, 1) as u32
}

/// Device independent pixels as physical ones: rounded to the nearest, and
/// never less than one.
pub fn dip_to_px(dip: u32, dpi: u32) -> (r: u32)
    ensures
        r == spec_dip_to_px(dip, dpi),
{
    assert(dip * dpi <= 0xffff_ffff * 0xffff_ffff) by (nonlinear_arith)
        requires
            dip <= 0xffff_ffff,
            dpi <= 0xffff_ffff,
    ;
    let px: u64 = (dip as u64 * dpi as u64 + 48) / 96;
    let px: u64 = if px >= 1 {
        px
    } else {
        1
    };
    px as u32
}

/// Side of one strip button: the strip's height, but never more than a quarter
/// of its width, so that three buttons leave room to take the strip by.
pub open spec fn spec_strip_button_side(width: u32, height: u32) -> u32 {
    smaller(height as int, (width / 4) as int) as u32
}

/// Side of one strip button: the strip's height, but never more than a quarter
/// of its width, so that three buttons leave room to take the strip by.
pub fn strip_button_side(width: u32, height: u32) -> (r: u32)
    ensures
        r == spec_strip_button_side(width, height),
{
    min_u32(height, width / 4)
}

/// What a press at a point of the strip means. The pin is the button at the
/// left end, minimize and close are the two at the right end, and the rest of
/// the strip is the handle. A strip too narrow for buttons is all handle.
pub open spec fn spec_hit_test_strip(width: u32, height: u32, x: int, y: int) -> StripHit {
    let side = spec_strip_button_side(width, height);
    if x < 0 || y < 0 || x >= (width as i32) || y >= (height as i32) || height == 0 {
        StripHit::Nothing
    } else if side == 0 {
        StripHit::Drag
    } else if x >= width - side {
        StripHit::Close
    } else if x >= width - 2 * side {
        StripHit::Minimize
    } else if x < side {
        StripHit::Pin
    } else {
        StripHit::Drag
    }
}

/// What a press at a point of the strip means. The pin is the button at the
/// left end, minimize and close are the two at the right end, and the rest of
/// the strip is the handle. A strip too narrow for buttons is all handle.
pub fn hit_test_strip(width: u32, height: u32, x: i32, y: i32) -> (r: StripHit)
    ensures
        r == spec_hit_test_strip(width, height, x as int, y as int),
{
    if x < 0 || y < 0 || x >= width as i32 || y >= height as i32 || height == 0 {
        return StripHit::Nothing;
    }
    proof {
        signed_length(width);
    }
    let button: u32 = strip_button_side(width, height);
    if button == 0 {
        return StripHit::Drag;
    }
    let close_left: i32 = (width - button) as i32;
    let minimize_left: i32 = (width - button * 2) as i32;
    if x >= close_left {
        StripHit::Close
    } else if x >= minimize_left {
        StripHit::Minimize
    } else if x < button as i32 {
        StripHit::Pin
    } else {
        StripHit::Drag
    }
}

/// The left edge of the interior of a rectangle is its origin; the right edge
/// is found by reading the width as a signed length.
pub open spec fn right_of(rect: Rect) -> int {
    rect.x + (rect.w as i32)
}

/// The bottom edge, by reading the height as a signed length.
pub open spec fn bottom_of(rect: Rect) -> int {
    rect.y + (rect.h as i32)
}

/// The resize zone at a point of the screen: within `edge` pixels of a side of
/// the rectangle that side moves, in a corner both do. A corner goes to the
/// left or top side where both sides of an axis are in reach.
pub open spec fn spec_resize_hit(rect: Rect, dpi: u32, x: int, y: int) -> u32 {
    let edge = spec_dip_to_px(RESIZE_EDGE_DIP, larger(dpi as int, 1) as u32) as i32;
    let outside = x < rect.x || y < rect.y || x >= right_of(rect) || y >= bottom_of(rect);
    let left = x < rect.x + edge;
    let right = x >= right_of(rect) - edge;
    let top = y < rect.y + edge;
    let bottom = y >= bottom_of(rect) - edge;
    if outside {
        HTCLIENT
    } else if top && left {
        HTTOPLEFT
    } else if top && right {
        HTTOPRIGHT
    } else if bottom && left {
        HTBOTTOMLEFT
    } else if bottom && right {
        HTBOTTOMRIGHT
    } else if left {
        HTLEFT
    } else if right {
        HTRIGHT
    } else if top {
        HTTOP
    } else if bottom {
        HTBOTTOM
    } else {
        HTCLIENT
    }
}

/// The resize zone at a point of the screen, or the client zone inside.
pub fn resize_hit(rect: Rect, dpi: u32, x: i32, y: i32) -> (r: u32)
    ensures
        r == spec_resize_hit(rect, dpi, x as int, y as int),
{
    let edge: i64 = (dip_to_px(RESIZE_EDGE_DIP, max_u32(dpi, 1)) as i32) as i64;
    let px: i64 = x as i64;
    let py: i64 = y as i64;
    let l: i64 = rect.x as i64;
    let t: i64 = rect.y as i64;
    let r: i64 = l + (rect.w as i32) as i64;
    let b: i64 = t + (rect.h as i32) as i64;
    if px < l || py < t || px >= r || py >= b {
        return HTCLIENT;
    }
    let left = px < l + edge;
    let right = px >= r - edge;
    let top = py < t + edge;
    let bottom = py >= b - edge;
    if top {
        if left {
            HTTOPLEFT
        } else if right {
            HTTOPRIGHT
        } else {
            HTTOP
        }
    } else if bottom {
        if left {
            HTBOTTOMLEFT
        } else if right {
            HTBOTTOMRIGHT
        } else {
            HTBOTTOM
        }
    } else if left {
        HTLEFT
    } else if right {
        HTRIGHT
    } else {
        HTCLIENT
    }
}

/// Where the strip lies: over the top edge of the content, as wide as it, but
/// never above the top of the screen.
pub open spec fn spec_strip_rect(content: Rect, screen_top: i32, dpi: u32) -> Rect {
    Rect {
        x: content.x,
        y: larger(content.y as int, screen_top as int) as i32,
        w: content.w,
        h: spec_dip_to_px(STRIP_HEIGHT_DIP, larger(dpi as int, 1) as u32),
    }
}

/// Where the strip lies: over the top edge of the content, as wide as it, but
/// never above the top of the screen.
pub fn strip_rect(content: Rect, screen_top: i32, dpi: u32) -> (r: Rect)
    ensures
        r == spec_strip_rect(content, screen_top, dpi),
{
    Rect {
        x: content.x,
        y: max_i32(content.y, screen_top),
        w: content.w,
        h: dip_to_px(STRIP_HEIGHT_DIP, max_u32(dpi, 1)),
    }
}

/// A point within the keep margin of a rectangle.
pub open spec fn near(rect: Rect, p: Point) -> bool {
    &&& p.x >= rect.x - STRIP_KEEP_MARGIN_PX
    &&& p.y >= rect.y - STRIP_KEEP_MARGIN_PX
    &&& p.x < right_of(rect) + STRIP_KEEP_MARGIN_PX
    &&& p.y < bottom_of(rect) + STRIP_KEEP_MARGIN_PX
}

/// Whether a point is within the keep margin of a rectangle.
pub fn is_near(rect: Rect, p: Point) -> (r: bool)
    ensures
        r == near(rect, p),
{
    let m: i64 = STRIP_KEEP_MARGIN_PX as i64;
    let x: i64 = p.x as i64;
    let y: i64 = p.y as i64;
    x >= rect.x as i64 - m && y >= rect.y as i64 - m && x < rect.x as i64 + (rect.w as i32) as i64 + m
        && y < rect.y as i64 + (rect.h as i32) as i64 + m
}

/// The size of a rectangle as the window calls take it.
pub open spec fn spec_dimensions(rect: Rect) -> (i32, i32) {
    (length_as_coordinate(rect.w), length_as_coordinate(rect.h))
}

/// The size of a rectangle as the window calls take it.
pub fn dimensions(rect: Rect) -> (r: (i32, i32))
    ensures
        r == spec_dimensions(rect),
{
    (as_coordinate(rect.w), as_coordinate(rect.h))
}

/// The side of a rectangle that the hand moves, at least one pixel long.
#[derive(Debug, Clone, Copy, PartialEq, Eq, Structural)]
pub enum Driver {
    /// The height follows from this width.
    Width(u32),
    /// The width follows from this height.
    Height(u32),
}

/// Which side leads while a window is resized by an edge or a corner: the
/// vertical one where the top or bottom edge is taken, the horizontal one
/// everywhere else. Other codes move nothing.
pub open spec fn spec_aspect_driver(rect: Edges, edge: u32) -> Option<Driver> {
    if edge == WMSZ_TOP || edge == WMSZ_BOTTOM {
        Some(Driver::Height(larger(rect.bottom - rect.top, 1) as u32))
    } else if edge == WMSZ_LEFT || edge == WMSZ_RIGHT || edge == WMSZ_TOPLEFT || edge
        == WMSZ_BOTTOMLEFT || edge == WMSZ_TOPRIGHT || edge == WMSZ_BOTTOMRIGHT {
        Some(Driver::Width(larger(rect.right - rect.left, 1) as u32))
    } else {
        None
    }
}

/// Which side leads while a window is resized by an edge or a corner: the
/// vertical one where the top or bottom edge is taken, the horizontal one
/// everywhere else. Other codes move nothing.
pub fn aspect_driver(rect: &Edges, edge: u32) -> (r: Option<Driver>)
    ensures
        r == spec_aspect_driver(*rect, edge),
{
    if edge == WMSZ_TOP || edge == WMSZ_BOTTOM {
        let h: i64 = rect.bottom as i64 - rect.top as i64;
        Some(
            Driver::Height(
                if h >= 1 {
                    h as u32
                } else {
                    1
                },
            ),
        )
    } else if edge == WMSZ_LEFT || edge == WMSZ_RIGHT || edge == WMSZ_TOPLEFT || edge
        == WMSZ_BOTTOMLEFT || edge == WMSZ_TOPRIGHT || edge == WMSZ_BOTTOMRIGHT {
        let w: i64 = rect.right as i64 - rect.left as i64;
        Some(
            Driver::Width(
                if w >= 1 {
                    w as u32
                } else {
                    1
                },
            ),
        )
    } else {
        None
    }
}

/// The rectangle after the side that is not led has been set to `want`, at
/// least one pixel. The edge opposite to the one under the hand stays put.
pub open spec fn spec_fit_aspect(rect: Edges, edge: u32, want: i32) -> Edges {
    let side = larger(want as int, 1);
    if edge == WMSZ_TOP || edge == WMSZ_BOTTOM {
        Edges { right: clamp_i32(rect.left + side), ..rect }
    } else if edge == WMSZ_TOPLEFT || edge == WMSZ_TOPRIGHT {
        Edges { top: clamp_i32(rect.bottom - side), ..rect }
    } else if edge == WMSZ_LEFT || edge == WMSZ_RIGHT || edge == WMSZ_BOTTOMLEFT || edge
        == WMSZ_BOTTOMRIGHT {
        Edges { bottom: clamp_i32(rect.top + side), ..rect }
    } else {
        rect
    }
}

/// Set the side that is not led to `want`, at least one pixel. The edge
/// opposite to the one under the hand stays put.
pub fn fit_aspect(rect: &mut Edges, edge: u32, want: i32)
    ensures
        *final(rect) == spec_fit_aspect(*old(rect), edge, want),
{
    let side: i32 = max_i32(want, 1);
    if edge == WMSZ_TOP || edge == WMSZ_BOTTOM {
        rect.right = saturating_plus(rect.left, side);
    } else if edge == WMSZ_TOPLEFT || edge == WMSZ_TOPRIGHT {
        rect.top = saturating_minus(rect.bottom, side);
    } else if edge == WMSZ_LEFT || edge == WMSZ_RIGHT || edge == WMSZ_BOTTOMLEFT || edge
        == WMSZ_BOTTOMRIGHT {
        rect.bottom = saturating_plus(rect.top, side);
    }
}

/// Every point of a strip has one meaning, and the handle is never lost: a
/// strip with buttons has a point for each of the four zones.
pub proof fn strip_zones_are_complete(width: u32, height: u32)
    requires
        0 < width <= i32::MAX,
        0 < height <= i32::MAX,
    ensures
        forall|x: int, y: int|
            0 <= x < width && 0 <= y < height ==> #[trigger] spec_hit_test_strip(
                width,
                height,
                x,
                y,
            ) != StripHit::Nothing,
        spec_strip_button_side(width, height) > 0 ==> {
            let side = spec_strip_button_side(width, height);
            &&& spec_hit_test_strip(width, height, 0, 0) == StripHit::Pin
            &&& spec_hit_test_strip(width, height, side as int, 0) == StripHit::Drag
            &&& spec_hit_test_strip(width, height, width - side - 1, 0) == StripHit::Minimize
            &&& spec_hit_test_strip(width, height, width - 1, 0) == StripHit::Close
        },
{
    signed_length(width);
    signed_length(height);
}

/// The strip never leaves the content: while any of the content is below the
/// top of the screen, the strip's own top edge lies on it, and the strip
/// covers the content's whole width.
pub proof fn strip_lies_on_content(content: Rect, screen_top: i32, dpi: u32)
    requires
        0 < content.h,
        screen_top < content.y + content.h,
    ensures
        ({
            let strip = spec_strip_rect(content, screen_top, dpi);
            &&& content.y <= strip.y < content.y + content.h
            &&& screen_top <= strip.y
            &&& strip.x == content.x
            &&& strip.w == content.w
            &&& strip.h >= 1
        }),
{
    let d: u32 = larger(dpi as int, 1) as u32;
    assert(28 * d + 48 <= 28 * 0xffff_ffff + 48) by (nonlinear_arith)
        requires
            d <= 0xffff_ffff,
    ;
}

/// A band of the same physical width is at least as wide, in pixels, on a
/// denser screen.
pub proof fn dip_grows_with_dpi(dip: u32, dpi: u32, denser: u32)
    requires
        dpi <= denser,
        dip * denser + 48 < 96 * 0x1_0000_0000,
    ensures
        spec_dip_to_px(dip, dpi) <= spec_dip_to_px(dip, denser),
{
    assert(0 <= dip * dpi <= dip * denser) by (nonlinear_arith)
        requires
            dpi <= denser,
    ;
}

/// A length in physical pixels is the nearest to the true one, a half going up,
/// and one pixel where that would be none.
pub proof fn pixels_are_nearest(dip: u32, dpi: u32)
    requires
        dip * dpi + 48 < 96 * 0x1_0000_0000,
    ensures
        spec_dip_to_px(dip, dpi) >= 1,
        dip * dpi < 48 ==> spec_dip_to_px(dip, dpi) == 1,
        dip * dpi >= 48 ==> 96 * spec_dip_to_px(dip, dpi) - 48 <= dip * dpi < 96 * spec_dip_to_px(
            dip,
            dpi,
        ) + 48,
{
    assert(dip * dpi >= 0) by (nonlinear_arith);
}

/// `side` is as large as three buttons on a strip of this size can be: no taller
/// than the strip, and a quarter of its width at most.
pub open spec fn largest_button(width: u32, height: u32, side: int) -> bool {
    &&& 0 <= side <= height
    &&& 4 * side <= width
    &&& side + 1 > height || 4 * (side + 1) > width
}

/// The zones of a strip by their places: close at the right end, minimize to
/// the left of it, the pin at the left end, the handle between, and nothing
/// outside.
pub proof fn strip_zones_lie_in_order(width: u32, height: u32, x: int, y: int, side: int)
    requires
        width <= i32::MAX,
        height <= i32::MAX,
        largest_button(width, height, side),
    ensures
        ({
            let hit = spec_hit_test_strip(width, height, x, y);
            let on = 0 <= x < width && 0 <= y < height;
            &&& hit is Close <==> on && side > 0 && x >= width - side
            &&& hit is Minimize <==> on && side > 0 && width - 2 * side <= x < width - side
            &&& hit is Pin <==> on && side > 0 && x < side
            &&& hit is Drag <==> on && (side == 0 || side <= x < width - 2 * side)
            &&& hit is Nothing <==> !on
        }),
        spec_strip_button_side(width, height) == side,
{
    signed_length(width);
    signed_length(height);
}

/// A strip whose size does not fit a coordinate has no zones.
pub proof fn overlong_strip_has_no_zones(width: u32, height: u32, x: int, y: int)
    requires
        width > i32::MAX || height > i32::MAX,
    ensures
        spec_hit_test_strip(width, height, x, y) is Nothing,
{
    signed_length(width);
    signed_length(height);
}

/// The edges of a rectangle by their places: within six device independent
/// pixels of a side the code names that side, in a corner both, the left and the
/// top one first; inside and outside it is the client code.
pub proof fn edges_are_named_by_place(rect: Rect, dpi: u32, x: int, y: int, band: int)
    requires
        rect.w <= i32::MAX,
        rect.h <= i32::MAX,
        band >= 1,
        6 * (if dpi == 0 {
            1int
        } else {
            dpi as int
        }) < 96 * band + 48,
        band == 1 || 96 * band - 48 <= 6 * dpi,
    ensures
        ({
            let code = spec_resize_hit(rect, dpi, x, y);
            let on = rect.x <= x < rect.x + rect.w && rect.y <= y < rect.y + rect.h;
            let left = x - rect.x < band;
            let right = !left && rect.x + rect.w - x <= band;
            let top = y - rect.y < band;
            let bottom = !top && rect.y + rect.h - y <= band;
            &&& code == 10 <==> on && left && !top && !bottom
            &&& code == 11 <==> on && right && !top && !bottom
            &&& code == 12 <==> on && top && !left && !right
            &&& code == 13 <==> on && top && left
            &&& code == 14 <==> on && top && right
            &&& code == 15 <==> on && bottom && !left && !right
            &&& code == 16 <==> on && bottom && left
            &&& code == 17 <==> on && bottom && right
            &&& code == 1 <==> !on || !(left || right || top || bottom)
        }),
{
    signed_length(rect.w);
    signed_length(rect.h);
    let d: u32 = if dpi == 0 {
        1
    } else {
        dpi
    };
    pixels_are_nearest(6, d);
    assert(spec_dip_to_px(6, d) == band);
    signed_length(spec_dip_to_px(6, d));
}

/// The strip is as wide as the content and begins where it begins, at the top
/// of the screen at the earliest, and is twenty-eight device independent pixels
/// high.
pub proof fn strip_is_placed(content: Rect, screen_top: i32, dpi: u32)
    ensures
        ({
            let strip = spec_strip_rect(content, screen_top, dpi);
            let d = if dpi == 0 {
                1int
            } else {
                dpi as int
            };
            &&& strip.x == content.x
            &&& strip.w == content.w
            &&& strip.y >= content.y && strip.y >= screen_top
            &&& strip.y == content.y || strip.y == screen_top
            &&& strip.h >= 1
            &&& 28 * d < 48 ==> strip.h == 1
            &&& 28 * d >= 48 ==> 96 * strip.h - 48 <= 28 * d < 96 * strip.h + 48
        }),
{
    let d: u32 = if dpi == 0 {
        1
    } else {
        dpi
    };
    pixels_are_nearest(28, d);
}

/// A point is near a rectangle up to twelve pixels outside any of its sides.
pub proof fn nearness_is_twelve_pixels(rect: Rect, p: Point)
    requires
        rect.w <= i32::MAX,
        rect.h <= i32::MAX,
    ensures
        near(rect, p) <==> rect.x - 12 <= p.x < rect.x + rect.w + 12 && rect.y - 12 <= p.y < rect.y
            + rect.h + 12,
{
    signed_length(rect.w);
    signed_length(rect.h);
}

/// A side goes to the window calls as it is, where it fits a coordinate.
pub proof fn dimensions_are_the_sides(rect: Rect)
    ensures
        rect.w <= i32::MAX ==> spec_dimensions(rect).0 == rect.w,
        rect.w > i32::MAX ==> spec_dimensions(rect).0 == i32::MAX,
        rect.h <= i32::MAX ==> spec_dimensions(rect).1 == rect.h,
        rect.h > i32::MAX ==> spec_dimensions(rect).1 == i32::MAX,
{
}

/// By the top edge (3) or the bottom edge (6) a window is led by its height, by
/// a side (1, 2) or a corner (4, 5, 7, 8) by its width, and by no other code.
pub proof fn pulled_edge_leads(rect: Edges, edge: u32)
    ensures
        edge == 3 || edge == 6 ==> (spec_aspect_driver(rect, edge) matches Some(Driver::Height(h))
            && h >= 1 && (h == rect.bottom - rect.top || (h == 1 && rect.bottom <= rect.top))),
        edge == 1 || edge == 2 || edge == 4 || edge == 5 || edge == 7 || edge == 8 ==> (
        spec_aspect_driver(rect, edge) matches Some(Driver::Width(w)) && w >= 1 && (w == rect.right
            - rect.left || (w == 1 && rect.right <= rect.left))),
        edge == 0 || edge > 8 ==> spec_aspect_driver(rect, edge) is None,
{
}

/// The side that follows takes the length it should have, at least one pixel:
/// the right edge gives way where the top or bottom edge is pulled, the top edge
/// where an upper corner is, the bottom edge otherwise. The other three edges
/// stay where they are.
pub proof fn other_side_follows(rect: Edges, edge: u32, want: i32, length: int)
    requires
        length >= 1,
        length == want || (length == 1 && want < 1),
    ensures
        ({
            let after = spec_fit_aspect(rect, edge, want);
            &&& edge == 3 || edge == 6 ==> after.left == rect.left && after.top == rect.top
                && after.bottom == rect.bottom && (after.right - after.left == length || (
            after.right == i32::MAX && rect.left + length > i32::MAX))
            &&& edge == 4 || edge == 5 ==> after.left == rect.left && after.right == rect.right
                && after.bottom == rect.bottom && (after.bottom - after.top == length || (after.top
                == i32::MIN && rect.bottom - length < i32::MIN))
            &&& edge == 1 || edge == 2 || edge == 7 || edge == 8 ==> after.left == rect.left
                && after.right == rect.right && after.top == rect.top && (after.bottom - after.top
                == length || (after.bottom == i32::MAX && rect.top + length > i32::MAX))
            &&& edge == 0 || edge > 8 ==> after == rect
        }),
{
}

/// A rectangle whose size does not fit a coordinate has no edges to take it by.
pub proof fn overlong_rectangle_has_no_edges(rect: Rect, dpi: u32, x: int, y: int)
    requires
        rect.w > i32::MAX || rect.h > i32::MAX,
    ensures
        spec_resize_hit(rect, dpi, x, y) == 1,
{
    signed_length(rect.w);
    signed_length(rect.h);
}

} // verus!
