//! How the strip of a piece is drawn.

use vstd::prelude::*;

use crate::crop_window::geometry::{
    spec_hit_test_strip, spec_strip_button_side, strip_button_side,
};
use crate::crop_window::StripHit;
use crate::model::Edges;
use crate::num::{clamp_i32, larger, max_i32, max_u32, signed_length, to_i32, toward_zero};

verus! {

/// Colours as the system packs them: blue, green, red from the top byte down.
pub const COLOR_STRIP: u32 = 0x0020_1b1b;

pub const COLOR_TEXT: u32 = 0x00eb_ebeb;

pub const COLOR_GLYPH: u32 = 0x00d8_d8d8;

/// Under the cursor, minimize and the pin.
pub const COLOR_HOVER: u32 = 0x0036_2f2f;

/// Under the cursor, close: the red that people know from other windows.
pub const COLOR_CLOSE_HOVER: u32 = 0x001c_2bc4;

/// Size of the caption.
pub const TEXT_SIZE_DIP: i32 = 12;

/// Side of a button's glyph.
pub const GLYPH_DIP: i32 = 10;

/// Distance of the caption from the pin.
pub const TEXT_PAD_DIP: i32 = 10;

/// A straight line, from its first point up to but not onto its last.
#[derive(Debug, Clone, Copy, PartialEq, Eq, Structural)]
pub struct Line {
    pub from_x: i32,
    pub from_y: i32,
    pub to_x: i32,
    pub to_y: i32,
}

/// A patch of one colour.
#[derive(Debug, Clone, Copy, PartialEq, Eq, Structural)]
pub struct Patch {
    pub area: Edges,
    pub color: u32,
}

/// Everything that is drawn on a strip, but for the caption's letters and the
/// pin's picture.
#[derive(Debug, Clone, Copy, PartialEq, Eq, Structural)]
pub struct StripLayout {
    /// Side of a button.
    pub button: i32,
    pub height: i32,
    /// Where the pin's button starts.
    pub pin_left: i32,
    /// The button under the cursor.
    pub hover: Option<Patch>,
    /// The height to ask of a font; negative, to mean that of its letters.
    pub font_height: i32,
    pub caption: Edges,
    pub pen_width: i32,
    pub minimize: Line,
    pub close_down: Line,
    pub close_up: Line,
}

/// Device independent pixels at a density, rounded to the nearest.
pub open spec fn scaled(dip: int, dpi: u32) -> int {
    toward_zero(dip * ((larger(dpi as int, 1) as u32) as i32) + 48, 96)
}

fn scale(dip: i32, dpi: u32) -> (r: i32)
    requires
        0 <= dip <= 12,
    ensures
        r == scaled(dip as int, dpi),
        -268_435_456 <= r <= 268_435_456,
{
    let d: i64 = (max_u32(dpi, 1) as i32) as i64;
    assert(-12 * 0x8000_0000 <= dip * d <= 12 * 0x8000_0000) by (nonlinear_arith)
        requires
            0 <= dip <= 12,
            -0x8000_0000 <= d <= 0x8000_0000,
    ;
    let n: i64 = dip as i64 * d + 48;
    if n >= 0 {
        (n / 96) as i32
    } else {
        -((-n) / 96) as i32
    }
}

fn halved(n: i32) -> (r: i32)
    requires
        n > i32::MIN,
    ensures
        r == toward_zero(n as int, 2),
{
    if n >= 0 {
        n / 2
    } else {
        -((-n) / 2)
    }
}

/// Where the buttons at the right end of a strip start: minimize, then close.
pub open spec fn right_buttons(width: int, button: int) -> (int, int) {
    (width - 2 * button, width - button)
}

/// The patch behind the button under the cursor. It covers the zone in which a
/// press would hit that button.
pub open spec fn hover_patch(width: int, height: int, button: int, hover: StripHit) -> Option<
    Patch,
> {
    let lit = |left: int, color: u32|
        Patch {
            area: Edges {
                left: left as i32,
                top: 0,
                right: (left + button) as i32,
                bottom: height as i32,
            },
            color,
        };
    match hover {
        StripHit::Pin => Some(lit(0, COLOR_HOVER)),
        StripHit::Minimize => Some(lit(right_buttons(width, button).0, COLOR_HOVER)),
        StripHit::Close => Some(lit(right_buttons(width, button).1, COLOR_CLOSE_HOVER)),
        StripHit::Nothing | StripHit::Drag => None,
    }
}

fn hovered(width: i32, height: i32, button: i32, hover: StripHit) -> (r: Option<Patch>)
    requires
        0 <= button,
        4 * button <= width,
    ensures
        r == hover_patch(width as int, height as int, button as int, hover),
{
    let (left, color): (i32, u32) = match hover {
        StripHit::Pin => (0, COLOR_HOVER),
        StripHit::Minimize => (width - button * 2, COLOR_HOVER),
        StripHit::Close => (width - button, COLOR_CLOSE_HOVER),
        StripHit::Nothing | StripHit::Drag => return None,
    };
    Some(Patch { area: Edges { left, top: 0, right: left + button, bottom: height }, color })
}

/// The room for the caption: between the pin and minimize, with a pad on
/// either side, and never turned over.
pub open spec fn caption_area(width: int, height: int, button: int, dpi: u32) -> Edges {
    let pad = scaled(TEXT_PAD_DIP as int, dpi);
    Edges {
        left: clamp_i32(button + pad),
        top: 0,
        right: larger(
            clamp_i32(right_buttons(width, button).0 - toward_zero(pad, 2)) as int,
            clamp_i32(button + pad) as int,
        ) as i32,
        bottom: height as i32,
    }
}

fn caption(width: i32, height: i32, button: i32, dpi: u32) -> (r: Edges)
    requires
        0 <= button,
        4 * button <= width,
    ensures
        r == caption_area(width as int, height as int, button as int, dpi),
{
    let pad: i32 = scale(TEXT_PAD_DIP, dpi);
    let left: i32 = to_i32(button as i64 + pad as i64);
    let right: i32 = to_i32((width - button * 2) as i64 - halved(pad) as i64);
    Edges {
        left,
        top: 0,
        right: if right >= left {
            right
        } else {
            left
        },
        bottom: height,
    }
}

/// The line through the middle of a glyph's square at `(x, y)` of half side
/// `g`, level.
pub open spec fn level_line(x: int, y: int, g: int) -> Line {
    Line { from_x: clamp_i32(x - g), from_y: y as i32, to_x: clamp_i32(x + g + 1), to_y: y as i32 }
}

/// The diagonal of a glyph's square that falls from left to right.
pub open spec fn falling_line(x: int, y: int, g: int) -> Line {
    Line {
        from_x: clamp_i32(x - g),
        from_y: clamp_i32(y - g),
        to_x: clamp_i32(x + g + 1),
        to_y: clamp_i32(y + g + 1),
    }
}

/// The diagonal of a glyph's square that falls from right to left.
pub open spec fn rising_line(x: int, y: int, g: int) -> Line {
    Line {
        from_x: clamp_i32(x + g),
        from_y: clamp_i32(y - g),
        to_x: clamp_i32(x - g - 1),
        to_y: clamp_i32(y + g + 1),
    }
}

fn lines(x: i32, other: i32, y: i32, g: i32) -> (r: (Line, Line, Line))
    ensures
        r.0 == level_line(x as int, y as int, g as int),
        r.1 == falling_line(other as int, y as int, g as int),
        r.2 == rising_line(other as int, y as int, g as int),
{
    let (m, c, v, h): (i64, i64, i64, i64) = (x as i64, other as i64, y as i64, g as i64);
    (
        Line { from_x: to_i32(m - h), from_y: y, to_x: to_i32(m + h + 1), to_y: y },
        Line {
            from_x: to_i32(c - h),
            from_y: to_i32(v - h),
            to_x: to_i32(c + h + 1),
            to_y: to_i32(v + h + 1),
        },
        Line {
            from_x: to_i32(c + h),
            from_y: to_i32(v - h),
            to_x: to_i32(c - h - 1),
            to_y: to_i32(v + h + 1),
        },
    )
}

/// The layout of a strip with this client area, at this density, with this
/// zone under the cursor. The pin is at the left end, minimize and close are
/// at the right end, and the caption has the room between them.
pub open spec fn spec_strip_layout(client: Edges, dpi: u32, hover: StripHit) -> StripLayout {
    let width = larger(clamp_i32(client.right - client.left) as int, 1);
    let height = larger(clamp_i32(client.bottom - client.top) as int, 1);
    let button = spec_strip_button_side(width as u32, height as u32) as int;
    let g = toward_zero(scaled(GLYPH_DIP as int, dpi), 2);
    let mx = right_buttons(width, button).0 + button / 2;
    let cx = right_buttons(width, button).1 + button / 2;
    StripLayout {
        button: button as i32,
        height: height as i32,
        pin_left: 0,
        hover: hover_patch(width, height, button, hover),
        font_height: (-scaled(TEXT_SIZE_DIP as int, dpi)) as i32,
        caption: caption_area(width, height, button, dpi),
        pen_width: larger(scaled(1, dpi), 1) as i32,
        minimize: level_line(mx, height / 2, g),
        close_down: falling_line(cx, height / 2, g),
        close_up: rising_line(cx, height / 2, g),
    }
}

/// Lay out a strip.
pub fn strip_layout(client: &Edges, dpi: u32, hover: StripHit) -> (r: StripLayout)
    ensures
        r == spec_strip_layout(*client, dpi, hover),
{
    let width: i32 = max_i32(to_i32(client.right as i64 - client.left as i64), 1);
    let height: i32 = max_i32(to_i32(client.bottom as i64 - client.top as i64), 1);
    let button: i32 = strip_button_side(width as u32, height as u32) as i32;
    let g: i32 = halved(scale(GLYPH_DIP, dpi));
    let mx: i32 = width - button * 2 + button / 2;
    let cx: i32 = width - button + button / 2;
    let (minimize, close_down, close_up) = lines(mx, cx, height / 2, g);
    StripLayout {
        button,
        height,
        pin_left: 0,
        hover: hovered(width, height, button, hover),
        font_height: -scale(TEXT_SIZE_DIP, dpi),
        caption: caption(width, height, button, dpi),
        pen_width: max_i32(scale(1, dpi), 1),
        minimize,
        close_down,
        close_up,
    }
}

/// What is drawn is what is pressed: the patch behind a button covers the
/// points at which a press hits that button, and no others.
pub proof fn drawn_buttons_are_pressed_buttons(client: Edges, dpi: u32, hover: StripHit, x: int, y: int)
    requires
        client.left == 0,
        client.top == 0,
        client.right > 0,
        client.bottom > 0,
        hover is Pin || hover is Minimize || hover is Close,
        spec_strip_button_side(client.right as u32, client.bottom as u32) > 0,
    ensures
        ({
            let area = spec_strip_layout(client, dpi, hover).hover->0.area;
            (area.left <= x < area.right && area.top <= y < area.bottom) <==> spec_hit_test_strip(
                client.right as u32,
                client.bottom as u32,
                x,
                y,
            ) == hover
        }),
{
    signed_length(client.right as u32);
    signed_length(client.bottom as u32);
}

/// A length is scaled to the nearest pixel, a half going up.
pub proof fn scaled_length_is_nearest(dip: int, dpi: u32)
    requires
        0 <= dip <= 12,
        0 < dpi <= i32::MAX,
    ensures
        96 * scaled(dip, dpi) - 48 <= dip * dpi < 96 * scaled(dip, dpi) + 48,
        scaled(dip, dpi) >= 0,
{
    signed_length(dpi);
    assert(dip * dpi >= 0) by (nonlinear_arith)
        requires
            0 <= dip,
            0 < dpi,
    ;
}

/// The button under the cursor has a patch of its own: the pin at the left end
/// and minimize second from the right in grey, close at the right end in red; no
/// other zone has one. A patch is as wide as a button and as high as the strip.
pub proof fn patch_lies_behind_its_button(client: Edges, dpi: u32, hover: StripHit, side: int)
    requires
        client.left == 0,
        client.top == 0,
        client.right > 0,
        client.bottom > 0,
        0 <= side <= client.bottom,
        4 * side <= client.right,
        side + 1 > client.bottom || 4 * (side + 1) > client.right,
    ensures
        ({
            let patch = spec_strip_layout(client, dpi, hover).hover;
            &&& hover is Nothing || hover is Drag ==> patch is None
            &&& hover is Pin || hover is Minimize || hover is Close ==> {
                &&& patch is Some
                &&& patch->0.area.top == 0 && patch->0.area.bottom == client.bottom
                &&& patch->0.area.right - patch->0.area.left == side
            }
            &&& hover is Pin ==> patch->0.area.left == 0 && patch->0.color == 0x0036_2f2f
            &&& hover is Minimize ==> patch->0.area.right == client.right - side && patch->0.color
                == 0x0036_2f2f
            &&& hover is Close ==> patch->0.area.right == client.right && patch->0.color
                == 0x001c_2bc4
        }),
{
}

/// The layout of a strip by its numbers: buttons as large as three can be, the
/// caption between the pin and minimize with ten device independent pixels on the
/// left and half of that on the right, letters of twelve, a pen of one, which is
/// a pixel at least.
pub proof fn strip_is_laid_out_by_numbers(
    client: Edges,
    dpi: u32,
    hover: StripHit,
    side: int,
    pad: int,
    letters: int,
    pen: int,
)
    requires
        client.left == 0,
        client.top == 0,
        client.right > 0,
        client.bottom > 0,
        0 < dpi <= i32::MAX,
        0 <= side <= client.bottom,
        4 * side <= client.right,
        side + 1 > client.bottom || 4 * (side + 1) > client.right,
        96 * pad - 48 <= 10 * dpi < 96 * pad + 48,
        96 * letters - 48 <= 12 * dpi < 96 * letters + 48,
        pen >= 1,
        pen == 1 || 96 * pen - 48 <= dpi,
        dpi < 96 * pen + 48,
        side + pad <= i32::MAX,
    ensures
        ({
            let layout = spec_strip_layout(client, dpi, hover);
            let right = client.right - 2 * side - pad / 2;
            &&& layout.button == side
            &&& layout.height == client.bottom
            &&& layout.pin_left == 0
            &&& layout.font_height == -letters
            &&& layout.pen_width == pen
            &&& layout.caption.left == side + pad
            &&& layout.caption.top == 0
            &&& layout.caption.bottom == client.bottom
            &&& right >= side + pad ==> layout.caption.right == right
            &&& right < side + pad ==> layout.caption.right == side + pad
        }),
{
    scaled_length_is_nearest(10, dpi);
    scaled_length_is_nearest(12, dpi);
    scaled_length_is_nearest(1, dpi);
    assert(scaled(10, dpi) == pad && scaled(12, dpi) == letters);
}

/// The glyphs stand in the middle of their buttons, half of ten device
/// independent pixels to either side: a level line for minimize, for close the
/// two diagonals of a square, each with its last pixel drawn.
pub proof fn glyphs_stand_in_the_middle(
    client: Edges,
    dpi: u32,
    hover: StripHit,
    side: int,
    glyph: int,
)
    requires
        client.left == 0,
        client.top == 0,
        client.right > 0,
        client.bottom > 0,
        0 < dpi <= i32::MAX,
        0 <= side <= client.bottom,
        4 * side <= client.right,
        side + 1 > client.bottom || 4 * (side + 1) > client.right,
        96 * glyph - 48 <= 10 * dpi < 96 * glyph + 48,
        client.right + glyph < i32::MAX,
        client.bottom + glyph < i32::MAX,
    ensures
        ({
            let layout = spec_strip_layout(client, dpi, hover);
            let g = glyph / 2;
            let mx = client.right - 2 * side + side / 2;
            let cx = client.right - side + side / 2;
            let y = client.bottom as int / 2;
            &&& layout.minimize.from_x == mx - g && layout.minimize.to_x == mx + g + 1
            &&& layout.minimize.from_y == y && layout.minimize.to_y == y
            &&& layout.close_down.from_x == cx - g && layout.close_down.to_x == cx + g + 1
            &&& layout.close_down.from_y == y - g && layout.close_down.to_y == y + g + 1
            &&& layout.close_up.from_x == cx + g && layout.close_up.to_x == cx - g - 1
            &&& layout.close_up.from_y == y - g && layout.close_up.to_y == y + g + 1
        }),
{
    scaled_length_is_nearest(10, dpi);
    assert(scaled(10, dpi) == glyph);
}

} // verus!
