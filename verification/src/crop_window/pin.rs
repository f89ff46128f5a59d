//! The pin on the strip: its picture, and how much of it falls on each pixel of
//! the button.

use vstd::prelude::*;

use crate::num::{clamp_i32, larger, smaller, to_i32, toward_zero};

verus! {

/// A picture, four bytes to a pixel: red, green, blue and opacity.
#[derive(Debug, PartialEq, Eq)]
pub struct RgbaImage {
    pub pixels: Vec<u8>,
    pub width: u32,
    pub height: u32,
}

impl RgbaImage {
    /// The bytes cover the whole picture.
    pub open spec fn whole(self) -> bool {
        4 * (self.width * self.height) <= self.pixels@.len()
    }
}

/// What `image::load_from_memory_with_format`, for PNG, and the conversion of its
/// result to eight-bit RGBA make of a file: the bytes, the width and the height.
pub uninterp spec fn decoded_image(file: Seq<u8>) -> Option<(Seq<u8>, u32, u32)>;

/// `image::load_from_memory_with_format` for PNG, then `DynamicImage::into_rgba8`:
/// the picture in a PNG file, or nothing where it is none. What comes back
/// depends on the file alone. Every picture comes with at least four bytes for
/// each of its pixels.
#[verifier::external_body]
fn decode_rgba(file: &[u8]) -> (r: Option<RgbaImage>)
    ensures
        match r {
            Some(picture) => decoded_image(file@) == Some(
                (picture.pixels@, picture.width, picture.height),
            ) && picture.whole(),
            None => decoded_image(file@) is None,
        },
{
    match image::load_from_memory_with_format(file, image::ImageFormat::Png) {
        Ok(decoded) => {
            let rgba = decoded.into_rgba8();
            let (width, height) = (rgba.width(), rgba.height());
            Some(RgbaImage { pixels: rgba.into_raw(), width, height })
        },
        Err(_) => None,
    }
}

/// The pin's picture. A file that is no picture leaves the button without one.
pub fn pin_rgba(file: &[u8]) -> (r: Option<RgbaImage>)
    ensures
        match decoded_image(file@) {
            Some((pixels, width, height)) => r matches Some(picture) && picture.pixels@ == pixels
                && picture.width == width && picture.height == height && picture.whole(),
            None => r is None,
        },
{
    decode_rgba(file)
}

/// Side of the pin's picture on its button: five eighths of it, but never so
/// small that it could not be made out.
pub open spec fn spec_pin_side(button: i32) -> i32 {
    clamp_i32(larger(toward_zero(button * 5, 8), 8))
}

/// Side of the pin's picture on its button: five eighths of it, but never so
/// small that it could not be made out.
pub fn pin_side(button: i32) -> (r: i32)
    ensures
        r == spec_pin_side(button),
        r >= 8,
{
    let n: i64 = button as i64 * 5;
    let part: i64 = if n >= 0 {
        n / 8
    } else {
        -((-n) / 8)
    };
    to_i32(
        if part >= 8 {
            part
        } else {
            8
        },
    )
}

/// Where the picture's corner goes.
pub open spec fn spec_pin_origin(left: i32, button: i32, height: i32, side: i32) -> (i32, i32) {
    (
        clamp_i32(left + toward_zero(button - side, 2)),
        clamp_i32(toward_zero(height - side, 2)),
    )
}

/// Where the picture's corner goes: in the middle of its button, on both axes.
pub fn pin_origin(left: i32, button: i32, height: i32, side: i32) -> (r: (i32, i32))
    ensures
        r == spec_pin_origin(left, button, height, side),
        r.0 == clamp_i32(left + toward_zero(button - side, 2)),
        r.1 == clamp_i32(toward_zero(height - side, 2)),
{
    let across: i64 = button as i64 - side as i64;
    let down: i64 = height as i64 - side as i64;
    let x: i64 = if across >= 0 {
        across / 2
    } else {
        -((-across) / 2)
    };
    let y: i64 = if down >= 0 {
        down / 2
    } else {
        -((-down) / 2)
    };
    (to_i32(left as i64 + x), to_i32(y))
}

/// The first of the source rows or columns that fall on row or column `i` of
/// `side`.
pub open spec fn span_start(i: int, extent: int, side: int) -> int {
    (i * extent) / side
}

/// One past the last of them: there is always at least one.
pub open spec fn span_end(i: int, extent: int, side: int) -> int {
    smaller(
        larger(((i + 1) * extent + side - 1) / side, span_start(i, extent, side) + 1),
        extent,
    )
}

proof fn span_holds_a_pixel(i: int, extent: int, side: int)
    requires
        0 <= i < side,
        0 < extent,
    ensures
        0 <= span_start(i, extent, side) < span_end(i, extent, side) <= extent,
{
    assert(0 <= i * extent < side * extent) by (nonlinear_arith)
        requires
            0 <= i < side,
            0 < extent,
    ;
    vstd::arithmetic::div_mod::lemma_div_pos_is_pos(i * extent, side);
    assert((i * extent) / side < extent) by (nonlinear_arith)
        requires
            0 <= i * extent < side * extent,
            0 < side,
            0 < extent,
    ;
}

fn span(i: u32, extent: u32, side: u32) -> (r: (u32, u32))
    requires
        i < side,
        0 < extent,
    ensures
        r.0 == span_start(i as int, extent as int, side as int),
        r.1 == span_end(i as int, extent as int, side as int),
        r.0 < r.1 <= extent,
{
    proof {
        span_holds_a_pixel(i as int, extent as int, side as int);
    }
    assert(i * extent + extent <= 0xffff_fffe * 0xffff_ffff + 0xffff_ffff) by (nonlinear_arith)
        requires
            0 <= i <= 0xffff_fffe,
            0 < extent <= 0xffff_ffff,
    ;
    assert((i + 1) * extent == i * extent + extent) by (nonlinear_arith);
    assert(i * extent >= 0) by (nonlinear_arith);
    let start: u64 = (i as u64 * extent as u64) / side as u64;
    let past: u64 = i as u64 * extent as u64 + extent as u64;
    let end: u128 = (past as u128 + side as u128 - 1) / side as u128;
    let end: u128 = if end >= start as u128 + 1 {
        end
    } else {
        start as u128 + 1
    };
    let end: u32 = if end <= extent as u128 {
        end as u32
    } else {
        extent
    };
    (start as u32, end)
}

/// The opacities of a run of pixels of one row, added up.
pub open spec fn row_opacity(pixels: Seq<u8>, width: int, y: int, from: int, to: int) -> int
    decreases to - from,
{
    if to <= from {
        0
    } else {
        row_opacity(pixels, width, y, from, to - 1) + pixels[4 * (y * width + (to - 1)) + 3]
    }
}

/// The opacities of a box of pixels, added up.
pub open spec fn box_opacity(
    pixels: Seq<u8>,
    width: int,
    x0: int,
    x1: int,
    y0: int,
    y1: int,
) -> int
    decreases y1 - y0,
{
    if y1 <= y0 {
        0
    } else {
        box_opacity(pixels, width, x0, x1, y0, y1 - 1) + row_opacity(pixels, width, y1 - 1, x0, x1)
    }
}

/// What falls on one pixel of the button: the opacities of the source pixels
/// there, added up, and how many they are.
#[derive(Debug, Clone, Copy, PartialEq, Eq, Structural)]
pub struct Cell {
    pub opacity: u128,
    pub count: u64,
}

/// What falls on pixel `(x, y)` of a square of `side`.
pub open spec fn cell_at(picture: RgbaImage, side: int, x: int, y: int) -> Cell {
    let x0 = span_start(x, picture.width as int, side);
    let x1 = span_end(x, picture.width as int, side);
    let y0 = span_start(y, picture.height as int, side);
    let y1 = span_end(y, picture.height as int, side);
    Cell {
        opacity: box_opacity(picture.pixels@, picture.width as int, x0, x1, y0, y1) as u128,
        count: ((x1 - x0) * (y1 - y0)) as u64,
    }
}

proof fn row_opacity_bound(pixels: Seq<u8>, width: int, y: int, from: int, to: int)
    requires
        from <= to,
    ensures
        0 <= row_opacity(pixels, width, y, from, to) <= 255 * (to - from),
    decreases to - from,
{
    if from < to {
        row_opacity_bound(pixels, width, y, from, to - 1);
    }
}

proof fn box_opacity_bound(pixels: Seq<u8>, width: int, x0: int, x1: int, y0: int, y1: int)
    requires
        x0 <= x1,
        y0 <= y1,
    ensures
        0 <= box_opacity(pixels, width, x0, x1, y0, y1) <= (255 * (x1 - x0)) * (y1 - y0),
    decreases y1 - y0,
{
    if y0 < y1 {
        box_opacity_bound(pixels, width, x0, x1, y0, y1 - 1);
        row_opacity_bound(pixels, width, y1 - 1, x0, x1);
        assert((255 * (x1 - x0)) * (y1 - 1 - y0) + 255 * (x1 - x0) == (255 * (x1 - x0)) * (y1
            - y0)) by (nonlinear_arith);
    } else {
        assert((255 * (x1 - x0)) * (y1 - y0) == 0) by (nonlinear_arith)
            requires
                y1 == y0,
        ;
    }
}

fn sum_row(picture: &RgbaImage, y: u32, x0: u32, x1: u32) -> (r: u64)
    requires
        picture.whole(),
        x0 <= x1 <= picture.width,
        y < picture.height,
    ensures
        r == row_opacity(picture.pixels@, picture.width as int, y as int, x0 as int, x1 as int),
        r <= 255 * (x1 - x0),
{
    let ghost pixels = picture.pixels@;
    let ghost width = picture.width as int;
    let total: usize = picture.pixels.len();
    let mut sum: u64 = 0;
    let mut x: u32 = x0;
    while x < x1
        invariant
            x0 <= x <= x1 <= picture.width,
            y < picture.height,
            picture.whole(),
            total == picture.pixels@.len(),
            pixels == picture.pixels@,
            width == picture.width,
            sum == row_opacity(pixels, width, y as int, x0 as int, x as int),
            sum <= 255 * (x - x0),
        decreases x1 - x,
    {
        assert(0 <= y * width && y * width + width <= width * picture.height) by (nonlinear_arith)
            requires
                0 <= y < picture.height,
                0 <= width,
        ;
        let at: u64 = 4 * (y as u64 * picture.width as u64 + x as u64) + 3;
        assert(at < picture.pixels@.len());
        sum = sum + picture.pixels[at as usize] as u64;
        x = x + 1;
    }
    sum
}

fn cell(picture: &RgbaImage, side: u32, x: u32, y: u32) -> (r: Cell)
    requires
        picture.whole(),
        0 < picture.width,
        0 < picture.height,
        x < side,
        y < side,
    ensures
        r == cell_at(*picture, side as int, x as int, y as int),
        r.count > 0,
        r.opacity <= 255 * r.count,
{
    let ghost pixels = picture.pixels@;
    let ghost width = picture.width as int;
    let (x0, x1) = span(x, picture.width, side);
    let (y0, y1) = span(y, picture.height, side);
    let mut sum: u128 = 0;
    let mut row: u32 = y0;
    while row < y1
        invariant
            y0 <= row <= y1 <= picture.height,
            x0 < x1 <= picture.width,
            picture.whole(),
            pixels == picture.pixels@,
            width == picture.width,
            sum == box_opacity(pixels, width, x0 as int, x1 as int, y0 as int, row as int),
            sum <= (255 * (x1 - x0)) * (row - y0),
        decreases y1 - row,
    {
        assert((255 * (x1 - x0)) * (row - y0) + 255 * (x1 - x0) == (255 * (x1 - x0)) * (row + 1
            - y0) <= 255 * 0xffff_ffff * 0x1_0000_0000) by (nonlinear_arith)
            requires
                0 <= x0 < x1 <= 0xffff_ffff,
                0 <= y0 <= row < 0xffff_ffff,
        ;
        sum = sum + sum_row(picture, row, x0, x1) as u128;
        row = row + 1;
    }
    assert(0 < (x1 - x0) * (y1 - y0) <= 0xffff_ffff * 0xffff_ffff) by (nonlinear_arith)
        requires
            0 <= x0 < x1 <= 0xffff_ffff,
            0 <= y0 < y1 <= 0xffff_ffff,
    ;
    assert((255 * (x1 - x0)) * (y1 - y0) == 255 * ((x1 - x0) * (y1 - y0))) by (nonlinear_arith);
    Cell { opacity: sum, count: (x1 - x0) as u64 * (y1 - y0) as u64 }
}

/// The picture as a square of `side` pixels is to show it, row by row: each
/// pixel takes the average of all source pixels that fall on it, so that thin
/// strokes do not break up. A picture without extent gives nothing. The average
/// itself is left to the caller.
pub fn pin_cells(picture: &RgbaImage, side: u32) -> (r: Option<Vec<Cell>>)
    requires
        picture.whole(),
        0 < side <= 23170,
    ensures
        r is None <==> picture.width == 0 || picture.height == 0,
        r matches Some(cells) ==> {
            &&& cells@.len() == side * side
            &&& forall|x: int, y: int|
                #![trigger cell_at(*picture, side as int, x, y)]
                0 <= x < side && 0 <= y < side ==> cells@[y * side + x] == cell_at(
                    *picture,
                    side as int,
                    x,
                    y,
                )
            &&& forall|i: int|
                0 <= i < cells@.len() ==> (#[trigger] cells@[i]).count > 0 && cells@[i].opacity
                    <= 255 * cells@[i].count
        },
{
    if picture.width == 0 || picture.height == 0 {
        return None;
    }
    let mut cells: Vec<Cell> = Vec::new();
    let mut y: u32 = 0;
    while y < side
        invariant
            y <= side,
            0 < side <= 23170,
            picture.whole(),
            0 < picture.width,
            0 < picture.height,
            cells@.len() == y * side,
            forall|a: int, b: int|
                #![trigger cell_at(*picture, side as int, a, b)]
                0 <= a < side && 0 <= b < y ==> cells@[b * side + a] == cell_at(
                    *picture,
                    side as int,
                    a,
                    b,
                ),
            forall|i: int|
                0 <= i < cells@.len() ==> (#[trigger] cells@[i]).count > 0 && cells@[i].opacity
                    <= 255 * cells@[i].count,
        decreases side - y,
    {
        let mut x: u32 = 0;
        while x < side
            invariant
                x <= side,
                y < side,
                0 < side <= 23170,
                picture.whole(),
                0 < picture.width,
                0 < picture.height,
                cells@.len() == y * side + x,
                forall|a: int, b: int|
                    #![trigger cell_at(*picture, side as int, a, b)]
                    0 <= a < side && 0 <= b < y ==> cells@[b * side + a] == cell_at(
                        *picture,
                        side as int,
                        a,
                        b,
                    ),
                forall|a: int|
                    #![trigger cell_at(*picture, side as int, a, y as int)]
                    0 <= a < x ==> cells@[y * side + a] == cell_at(
                        *picture,
                        side as int,
                        a,
                        y as int,
                    ),
                forall|i: int|
                    0 <= i < cells@.len() ==> (#[trigger] cells@[i]).count > 0 && cells@[i].opacity
                        <= 255 * cells@[i].count,
            decreases side - x,
        {
            let ghost before = cells@;
            let next = cell(picture, side, x, y);
            cells.push(next);
            proof {
                assert forall|a: int, b: int|
                    #![trigger cell_at(*picture, side as int, a, b)]
                    0 <= a < side && 0 <= b < y implies cells@[b * side + a] == cell_at(
                    *picture,
                    side as int,
                    a,
                    b,
                ) by {
                    row_index_below(a, b, y as int, side as int);
                    assert(cells@[b * side + a] == before[b * side + a]);
                }
                row_index_below(x as int, y as int, y + 1, side as int);
            }
            x = x + 1;
        }
        proof {
            assert(y * side + side == (y + 1) * side) by (nonlinear_arith);
        }
        y = y + 1;
    }
    Some(cells)
}

proof fn row_index_below(x: int, y: int, rows: int, side: int)
    requires
        0 <= x < side,
        0 <= y < rows,
    ensures
        0 <= y * side + x < rows * side,
        0 <= y * side,
{
    assert(0 <= y * side && y * side + side <= rows * side) by (nonlinear_arith)
        requires
            0 <= y < rows,
            0 < side,
    ;
}

/// Every source pixel is drawn: the spans that fall on neighbouring pixels of
/// the button leave no gap between them, and together they reach from one edge
/// of the picture to the other.
pub proof fn spans_cover_the_picture(i: int, extent: int, side: int)
    requires
        0 <= i < side,
        0 < extent,
    ensures
        0 <= span_start(i, extent, side) < span_end(i, extent, side) <= extent,
        span_start(0, extent, side) == 0,
        span_end(side - 1, extent, side) == extent,
        i + 1 < side ==> span_start(i + 1, extent, side) <= span_end(i, extent, side),
{
    span_holds_a_pixel(i, extent, side);
    assert(0 * extent == 0) by (nonlinear_arith);
    assert((side - 1 + 1) * extent + side - 1 == side * extent + (side - 1)) by (nonlinear_arith);
    assert(side * extent == extent * side) by (nonlinear_arith);
    vstd::arithmetic::div_mod::lemma_fundamental_div_mod_converse(
        side * extent + (side - 1),
        side,
        extent,
        side - 1,
    );
    span_holds_a_pixel(side - 1, extent, side);
    if i + 1 < side {
        span_holds_a_pixel(i + 1, extent, side);
        vstd::arithmetic::div_mod::lemma_div_is_ordered(
            (i + 1) * extent,
            (i + 1) * extent + side - 1,
            side,
        );
    }
}

/// The picture takes five eighths of its button, and eight pixels at least.
pub proof fn picture_takes_five_eighths(button: i32)
    ensures
        spec_pin_side(button) >= 8,
        button < 13 ==> spec_pin_side(button) == 8,
        button >= 13 ==> 8 * spec_pin_side(button) <= 5 * button < 8 * spec_pin_side(button) + 8,
{
}

/// The source pixels that fall on a pixel of the button are those that it
/// touches: the first is the one in which it begins, the last the one in which it
/// ends.
pub proof fn span_is_what_a_pixel_touches(i: int, extent: int, side: int)
    requires
        0 <= i < side,
        0 < extent,
    ensures
        side * span_start(i, extent, side) <= i * extent < side * (span_start(i, extent, side) + 1),
        side * (span_end(i, extent, side) - 1) < (i + 1) * extent <= side * span_end(
            i,
            extent,
            side,
        ),
{
    let start = span_start(i, extent, side);
    vstd::arithmetic::div_mod::lemma_fundamental_div_mod(i * extent, side);
    assert(side * (start + 1) == side * start + side) by (nonlinear_arith);
    let n = (i + 1) * extent + side - 1;
    let up = n / side;
    vstd::arithmetic::div_mod::lemma_fundamental_div_mod(n, side);
    assert(side * (up - 1) == side * up - side) by (nonlinear_arith);
    assert((i + 1) * extent == i * extent + extent) by (nonlinear_arith);
    assert((i + 1) * extent <= side * extent) by (nonlinear_arith)
        requires
            i + 1 <= side,
            0 < extent,
    ;
    assert(up <= extent) by (nonlinear_arith)
        requires
            side * (up - 1) < (i + 1) * extent,
            (i + 1) * extent <= side * extent,
            side > 0,
    ;
    assert(up >= start + 1) by (nonlinear_arith)
        requires
            side * start <= i * extent,
            i * extent < (i + 1) * extent,
            (i + 1) * extent <= side * up,
            side > 0,
    ;
}

proof fn row_is_split(pixels: Seq<u8>, width: int, y: int, from: int, mid: int, to: int)
    requires
        from <= mid <= to,
    ensures
        row_opacity(pixels, width, y, from, to) == row_opacity(pixels, width, y, from, mid)
            + row_opacity(pixels, width, y, mid, to),
    decreases to - mid,
{
    if mid < to {
        row_is_split(pixels, width, y, from, mid, to - 1);
    }
}

/// The opacity of a box is that of its pixels, added up: a box of one pixel has
/// the fourth byte of that pixel, a box without pixels has none, and a box that is
/// cut in two, across or down, has what its two parts have.
pub proof fn opacities_add_up(
    pixels: Seq<u8>,
    width: int,
    x0: int,
    xm: int,
    x1: int,
    y0: int,
    ym: int,
    y1: int,
)
    requires
        x0 <= xm <= x1,
        y0 <= ym <= y1,
    ensures
        box_opacity(pixels, width, x0, x0 + 1, y0, y0 + 1) == pixels[4 * (y0 * width + x0) + 3],
        box_opacity(pixels, width, x0, x1, y0, y0) == 0,
        box_opacity(pixels, width, x0, x1, y0, y1) == box_opacity(pixels, width, x0, x1, y0, ym)
            + box_opacity(pixels, width, x0, x1, ym, y1),
        box_opacity(pixels, width, x0, x1, y0, y1) == box_opacity(pixels, width, x0, xm, y0, y1)
            + box_opacity(pixels, width, xm, x1, y0, y1),
{
    reveal_with_fuel(box_opacity, 2);
    reveal_with_fuel(row_opacity, 2);
    assert(box_opacity(pixels, width, x0, x0 + 1, y0, y0) == 0);
    assert(row_opacity(pixels, width, y0, x0, x0) == 0);
    box_is_split_down(pixels, width, x0, x1, y0, ym, y1);
    box_is_split_across(pixels, width, x0, xm, x1, y0, y1);
}

proof fn box_is_split_down(
    pixels: Seq<u8>,
    width: int,
    x0: int,
    x1: int,
    y0: int,
    ym: int,
    y1: int,
)
    requires
        y0 <= ym <= y1,
    ensures
        box_opacity(pixels, width, x0, x1, y0, y1) == box_opacity(pixels, width, x0, x1, y0, ym)
            + box_opacity(pixels, width, x0, x1, ym, y1),
    decreases y1 - ym,
{
    if ym < y1 {
        box_is_split_down(pixels, width, x0, x1, y0, ym, y1 - 1);
    }
}

proof fn box_is_split_across(
    pixels: Seq<u8>,
    width: int,
    x0: int,
    xm: int,
    x1: int,
    y0: int,
    y1: int,
)
    requires
        x0 <= xm <= x1,
        y0 <= y1,
    ensures
        box_opacity(pixels, width, x0, x1, y0, y1) == box_opacity(pixels, width, x0, xm, y0, y1)
            + box_opacity(pixels, width, xm, x1, y0, y1),
    decreases y1 - y0,
{
    if y0 < y1 {
        box_is_split_across(pixels, width, x0, xm, x1, y0, y1 - 1);
        row_is_split(pixels, width, y1 - 1, x0, xm, x1);
    }
}

/// What falls on a pixel of the button is the opacity of the box that it touches,
/// across by the picture's width and down by its height, and the number of pixels
/// in that box.
pub proof fn cell_is_its_box(picture: RgbaImage, side: int, x: int, y: int)
    requires
        0 <= x < side,
        0 <= y < side,
        0 < picture.width,
        0 < picture.height,
    ensures
        ({
            let (w, h) = (picture.width as int, picture.height as int);
            let x0 = x * w / side;
            let y0 = y * h / side;
            let x1 = span_end(x, w, side);
            let y1 = span_end(y, h, side);
            let cell = cell_at(picture, side, x, y);
            &&& cell.opacity == box_opacity(picture.pixels@, w, x0, x1, y0, y1)
            &&& cell.count == (x1 - x0) * (y1 - y0)
        }),
{
    let (w, h) = (picture.width as int, picture.height as int);
    span_holds_a_pixel(x, w, side);
    span_holds_a_pixel(y, h, side);
    let x0 = span_start(x, w, side);
    let y0 = span_start(y, h, side);
    let x1 = span_end(x, w, side);
    let y1 = span_end(y, h, side);
    box_opacity_bound(picture.pixels@, w, x0, x1, y0, y1);
    assert(0 < (x1 - x0) * (y1 - y0) <= 0xffff_ffff * 0xffff_ffff) by (nonlinear_arith)
        requires
            0 <= x0 < x1 <= 0xffff_ffff,
            0 <= y0 < y1 <= 0xffff_ffff,
    ;
    assert((255 * (x1 - x0)) * (y1 - y0) == 255 * ((x1 - x0) * (y1 - y0))) by (nonlinear_arith);
}

/// The picture has as much room on its left as on its right and as much above as
/// below, or a pixel less before it than behind it.
pub proof fn picture_is_in_the_middle(left: i32, button: i32, height: i32, side: i32)
    requires
        0 <= side <= button,
        side <= height,
        0 <= left,
        left + button <= i32::MAX,
    ensures
        ({
            let (x, y) = spec_pin_origin(left, button, height, side);
            let before = x - left;
            let behind = left + button - (x + side);
            let above = y as int;
            let below = height - (y + side);
            &&& before >= 0 && above >= 0
            &&& before == behind || before + 1 == behind
            &&& above == below || above + 1 == below
        }),
{
}

} // verus!
