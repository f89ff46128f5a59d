//! The cursor over the editor: which shape belongs to which zone, and the
//! picture of the one that the system does not have.

use std::collections::HashMap;
use vstd::prelude::*;

use crate::winapi::HTCLIENT;

verus! {

broadcast use vstd::std_specs::hash::group_hash_axioms;

/// One of the eight handles of a selection frame.
#[derive(Debug, Clone, Copy, PartialEq, Eq, Structural)]
pub enum Handle {
    North,
    NorthEast,
    East,
    SouthEast,
    South,
    SouthWest,
    West,
    NorthWest,
}

/// What is under the cursor in the editor.
#[derive(Debug, Clone, Copy, PartialEq, Eq, Structural)]
pub enum CursorZone {
    /// Nothing.
    Background,
    /// The body of the selected sticker.
    StickerBody,
    ResizeHandle(Handle),
    /// Outside the frame, where it is turned; the angle of the arrow in
    /// degrees, clockwise on the screen.
    RotateZone(i32),
}

/// The shape of the cursor.
#[derive(Debug, Clone, Copy, PartialEq, Eq, Structural)]
pub enum CursorShape {
    Arrow,
    Move,
    SizeNS,
    SizeWE,
    SizeNESW,
    SizeNWSE,
    /// A small arc with two points, at an angle in degrees.
    Rotate(i32),
    Cross,
}

impl CursorZone {
    /// The shape for a zone. The axes of the resize shapes are those of the
    /// screen.
    pub open spec fn shape(self) -> CursorShape {
        match self {
            CursorZone::Background => CursorShape::Arrow,
            CursorZone::StickerBody => CursorShape::Move,
            CursorZone::ResizeHandle(handle) => match handle {
                Handle::North | Handle::South => CursorShape::SizeNS,
                Handle::East | Handle::West => CursorShape::SizeWE,
                Handle::NorthEast | Handle::SouthWest => CursorShape::SizeNESW,
                Handle::NorthWest | Handle::SouthEast => CursorShape::SizeNWSE,
            },
            CursorZone::RotateZone(angle_deg) => CursorShape::Rotate(angle_deg),
        }
    }

    /// The shape for a zone.
    pub fn cursor_shape(self) -> (r: CursorShape)
        ensures
            r == self.shape(),
    {
        match self {
            CursorZone::Background => CursorShape::Arrow,
            CursorZone::StickerBody => CursorShape::Move,
            CursorZone::ResizeHandle(handle) => match handle {
                Handle::North | Handle::South => CursorShape::SizeNS,
                Handle::East | Handle::West => CursorShape::SizeWE,
                Handle::NorthEast | Handle::SouthWest => CursorShape::SizeNESW,
                Handle::NorthWest | Handle::SouthEast => CursorShape::SizeNWSE,
            },
            CursorZone::RotateZone(angle_deg) => CursorShape::Rotate(angle_deg),
        }
    }
}

/// The cursor of an overlay window.
#[derive(Debug, Clone, Copy, PartialEq, Eq, Structural)]
pub struct CursorManager {
    pub shape: CursorShape,
}

impl CursorManager {
    /// The arrow.
    pub fn new() -> (r: Self)
        ensures
            r.shape == CursorShape::Arrow,
    {
        Self { shape: CursorShape::Arrow }
    }

    /// The shape shown.
    pub fn current(&self) -> (r: CursorShape)
        ensures
            r == self.shape,
    {
        self.shape
    }

    /// Change the shape. Where it is already shown there is nothing to do, and
    /// the answer says so.
    pub fn set_shape(&mut self, shape: CursorShape) -> (r: bool)
        ensures
            final(self).shape == shape,
            r == (shape != old(self).shape),
    {
        if shape == self.shape {
            return false;
        }
        self.shape = shape;
        true
    }

    /// Answer a request to set the cursor: over the client area the own shape
    /// is shown again and the request is done with; elsewhere the system
    /// decides.
    pub fn handle_set_cursor(&self, lparam: isize) -> (r: Option<isize>)
        ensures
            r == (if lparam as u32 & 0xFFFF == HTCLIENT {
                Some(1isize)
            } else {
                None::<isize>
            }),
    {
        if lparam as u32 & 0xFFFF == HTCLIENT {
            Some(1)
        } else {
            None
        }
    }
}

impl Default for CursorManager {
    fn default() -> (r: Self)
        ensures
            r.shape == CursorShape::Arrow,
    {
        Self::new()
    }
}

/// The rotation cursors made so far, by angle.
pub struct RotateCache {
    pub cursors: HashMap<i32, isize>,
}

impl RotateCache {
    /// None made yet.
    pub fn new() -> (r: Self)
        ensures
            r.cursors@ == Map::<i32, isize>::empty(),
    {
        Self { cursors: HashMap::new() }
    }

    /// The cursor made for an angle.
    pub fn lookup(&self, angle_deg: i32) -> (r: Option<isize>)
        ensures
            r == (if self.cursors@.contains_key(angle_deg) {
                Some(self.cursors@[angle_deg])
            } else {
                None::<isize>
            }),
    {
        match self.cursors.get(&angle_deg) {
            Some(cursor) => Some(*cursor),
            None => None,
        }
    }

    /// Take up what came of making the cursor for an angle, and say which one
    /// to show. The stand-in for one that could not be made is not kept: it is
    /// the system's.
    pub fn made(&mut self, angle_deg: i32, cursor: Option<isize>, stand_in: isize) -> (r: isize)
        ensures
            match cursor {
                Some(c) => r == c && final(self).cursors@ == old(self).cursors@.insert(angle_deg, c),
                None => r == stand_in && final(self).cursors@ == old(self).cursors@,
            },
    {
        match cursor {
            Some(c) => {
                self.cursors.insert(angle_deg, c);
                c
            },
            None => stand_in,
        }
    }
}

/// Side of the picture of the rotation cursor.
pub const ROTATE_CURSOR_SIZE: usize = 32;

/// How many of a pixel's sample points can lie inside the figure.
pub const SAMPLES: u8 = 4;

/// Opacity of a pixel of which `hits` sample points are covered, rounded to the
/// nearest, a half going up.
pub open spec fn fill_opacity(hits: u8) -> u8 {
    ((hits * 255 + 2) / 4) as u8
}

/// Some pixel next to `(x, y)`, on an axis or a diagonal, is covered by more
/// than half.
pub open spec fn beside_figure(hits: Seq<u8>, x: int, y: int) -> bool {
    exists|nx: int, ny: int| #[trigger] is_dense_neighbour(hits, x, y, nx, ny)
}

/// `(nx, ny)` is next to `(x, y)`, inside the picture, and covered by more than
/// half.
pub open spec fn is_dense_neighbour(hits: Seq<u8>, x: int, y: int, nx: int, ny: int) -> bool {
    &&& x - 1 <= nx <= x + 1
    &&& y - 1 <= ny <= y + 1
    &&& !(nx == x && ny == y)
    &&& 0 <= nx < ROTATE_CURSOR_SIZE
    &&& 0 <= ny < ROTATE_CURSOR_SIZE
    &&& hits[ny * ROTATE_CURSOR_SIZE + nx] * 2 > SAMPLES
}

/// The pixel at `(x, y)`: white where the figure covers it, black right beside
/// the figure, and nothing elsewhere. Four bytes: red, green, blue, opacity.
pub open spec fn cursor_pixel(hits: Seq<u8>, x: int, y: int) -> Seq<u8> {
    let own = hits[y * ROTATE_CURSOR_SIZE + x];
    if own > 0 {
        seq![255u8, 255u8, 255u8, fill_opacity(own)]
    } else if beside_figure(hits, x, y) {
        seq![0u8, 0u8, 0u8, 255u8]
    } else {
        seq![0u8, 0u8, 0u8, 0u8]
    }
}

#[verifier::loop_isolation(false)]
fn is_beside_figure(hits: &Vec<u8>, x: usize, y: usize) -> (r: bool)
    requires
        hits.len() == ROTATE_CURSOR_SIZE * ROTATE_CURSOR_SIZE,
        x < ROTATE_CURSOR_SIZE,
        y < ROTATE_CURSOR_SIZE,
    ensures
        r == beside_figure(hits@, x as int, y as int),
{
    let y0: usize = if y > 0 {
        y - 1
    } else {
        0
    };
    let y1: usize = if y + 1 < ROTATE_CURSOR_SIZE {
        y + 2
    } else {
        ROTATE_CURSOR_SIZE
    };
    let x0: usize = if x > 0 {
        x - 1
    } else {
        0
    };
    let x1: usize = if x + 1 < ROTATE_CURSOR_SIZE {
        x + 2
    } else {
        ROTATE_CURSOR_SIZE
    };
    let mut ny: usize = y0;
    while ny < y1
        invariant
            y0 <= ny <= y1 <= ROTATE_CURSOR_SIZE,
            x0 <= x1 <= ROTATE_CURSOR_SIZE,
            hits.len() == ROTATE_CURSOR_SIZE * ROTATE_CURSOR_SIZE,
            forall|a: int, b: int|
                y0 <= b < ny && x0 <= a < x1 ==> !#[trigger] is_dense_neighbour(
                    hits@,
                    x as int,
                    y as int,
                    a,
                    b,
                ),
        decreases y1 - ny,
    {
        let mut nx: usize = x0;
        while nx < x1
            invariant
                x0 <= nx <= x1 <= ROTATE_CURSOR_SIZE,
                y0 <= ny < y1 <= ROTATE_CURSOR_SIZE,
                hits.len() == ROTATE_CURSOR_SIZE * ROTATE_CURSOR_SIZE,
                forall|a: int, b: int|
                    y0 <= b < ny && x0 <= a < x1 ==> !#[trigger] is_dense_neighbour(
                        hits@,
                        x as int,
                        y as int,
                        a,
                        b,
                    ),
                forall|a: int|
                    x0 <= a < nx ==> !#[trigger] is_dense_neighbour(
                        hits@,
                        x as int,
                        y as int,
                        a,
                        ny as int,
                    ),
            decreases x1 - nx,
        {
            if !(nx == x && ny == y) && hits[ny * ROTATE_CURSOR_SIZE + nx] > SAMPLES / 2 {
                assert(is_dense_neighbour(hits@, x as int, y as int, nx as int, ny as int));
                return true;
            }
            assert(!is_dense_neighbour(hits@, x as int, y as int, nx as int, ny as int));
            nx = nx + 1;
        }
        ny = ny + 1;
    }
    assert forall|a: int, b: int| !#[trigger] is_dense_neighbour(
        hits@,
        x as int,
        y as int,
        a,
        b,
    ) by {
        if is_dense_neighbour(hits@, x as int, y as int, a, b) {
            assert(x0 <= a < x1 && y0 <= b < y1);
        }
    }
    false
}

/// The picture of the rotation cursor from how many sample points of each pixel
/// the figure covers, row by row.
pub fn rotate_cursor_rgba(hits: &Vec<u8>) -> (r: Vec<u8>)
    requires
        hits.len() == ROTATE_CURSOR_SIZE * ROTATE_CURSOR_SIZE,
        forall|i: int| 0 <= i < hits.len() ==> hits@[i] <= SAMPLES,
    ensures
        r@.len() == 4 * ROTATE_CURSOR_SIZE * ROTATE_CURSOR_SIZE,
        forall|x: int, y: int|
            #![trigger cursor_pixel(hits@, x, y)]
            0 <= x < ROTATE_CURSOR_SIZE && 0 <= y < ROTATE_CURSOR_SIZE ==> r@.subrange(
                4 * (y * ROTATE_CURSOR_SIZE + x),
                4 * (y * ROTATE_CURSOR_SIZE + x) + 4,
            ) == cursor_pixel(hits@, x, y),
{
    let mut out: Vec<u8> = Vec::new();
    let total: usize = ROTATE_CURSOR_SIZE * ROTATE_CURSOR_SIZE;
    let mut i: usize = 0;
    while i < total
        invariant
            i <= total,
            total == ROTATE_CURSOR_SIZE * ROTATE_CURSOR_SIZE,
            hits.len() == total,
            forall|k: int| 0 <= k < hits.len() ==> hits@[k] <= SAMPLES,
            out@.len() == 4 * i,
            forall|k: int|
                #![trigger out@.subrange(4 * k, 4 * k + 4)]
                0 <= k < i ==> out@.subrange(4 * k, 4 * k + 4) == cursor_pixel(
                    hits@,
                    k % 32,
                    k / 32,
                ),
        decreases total - i,
    {
        let ghost before = out@;
        let x: usize = i % ROTATE_CURSOR_SIZE;
        let y: usize = i / ROTATE_CURSOR_SIZE;
        let own: u8 = hits[i];
        let (shade, opacity): (u8, u8) = if own > 0 {
            (255, ((own as u16 * 255 + 2) / 4) as u8)
        } else if is_beside_figure(hits, x, y) {
            (0, 255)
        } else {
            (0, 0)
        };
        out.push(shade);
        out.push(shade);
        out.push(shade);
        out.push(opacity);
        proof {
            let k = i as int;
            assert(k == (k / 32) * 32 + k % 32);
            assert(out@.subrange(4 * k, 4 * k + 4) =~= cursor_pixel(hits@, k % 32, k / 32));
            assert forall|j: int|
                #![trigger out@.subrange(4 * j, 4 * j + 4)]
                0 <= j < i implies out@.subrange(4 * j, 4 * j + 4) == cursor_pixel(
                hits@,
                j % 32,
                j / 32,
            ) by {
                assert(out@.subrange(4 * j, 4 * j + 4) =~= before.subrange(4 * j, 4 * j + 4));
            }
        }
        i = i + 1;
    }
    proof {
        assert forall|x: int, y: int|
            #![trigger cursor_pixel(hits@, x, y)]
            0 <= x < ROTATE_CURSOR_SIZE && 0 <= y < ROTATE_CURSOR_SIZE implies out@.subrange(
            4 * (y * ROTATE_CURSOR_SIZE + x),
            4 * (y * ROTATE_CURSOR_SIZE + x) + 4,
        ) == cursor_pixel(hits@, x, y) by {
            let k = y * 32 + x;
            assert(k % 32 == x && k / 32 == y);
            assert(0 <= k < total);
            assert(out@.subrange(4 * k, 4 * k + 4) == cursor_pixel(hits@, k % 32, k / 32));
        }
    }
    out
}

/// A colour scaled by an opacity, rounded to the nearest.
pub open spec fn premultiply(color: u8, opacity: u8) -> u8 {
    ((2 * (color * opacity) + 255) / 510) as u8
}

fn scaled(color: u8, opacity: u8) -> (r: u8)
    ensures
        r == premultiply(color, opacity),
{
    assert(0 <= color * opacity <= 255 * 255) by (nonlinear_arith)
        requires
            0 <= color <= 255,
            0 <= opacity <= 255,
    ;
    ((2 * (color as u32 * opacity as u32) + 255) / 510) as u8
}

/// The picture as the system takes it: blue, green, red, opacity, the colours
/// scaled by the opacity.
pub fn premultiplied_bgra(rgba: &Vec<u8>) -> (r: Vec<u8>)
    requires
        rgba.len() % 4 == 0,
    ensures
        r@.len() == rgba@.len(),
        forall|p: int|
            #![trigger rgba@[4 * p + 3]]
            0 <= p < rgba@.len() / 4 ==> {
                &&& r@[4 * p] == premultiply(rgba@[4 * p + 2], rgba@[4 * p + 3])
                &&& r@[4 * p + 1] == premultiply(rgba@[4 * p + 1], rgba@[4 * p + 3])
                &&& r@[4 * p + 2] == premultiply(rgba@[4 * p], rgba@[4 * p + 3])
                &&& r@[4 * p + 3] == rgba@[4 * p + 3]
            },
{
    let mut out: Vec<u8> = Vec::new();
    let mut i: usize = 0;
    while i < rgba.len()
        invariant
            i <= rgba.len(),
            i % 4 == 0,
            rgba.len() % 4 == 0,
            out@.len() == i,
            forall|p: int|
                #![trigger rgba@[4 * p + 3]]
                0 <= p < i / 4 ==> {
                    &&& out@[4 * p] == premultiply(rgba@[4 * p + 2], rgba@[4 * p + 3])
                    &&& out@[4 * p + 1] == premultiply(rgba@[4 * p + 1], rgba@[4 * p + 3])
                    &&& out@[4 * p + 2] == premultiply(rgba@[4 * p], rgba@[4 * p + 3])
                    &&& out@[4 * p + 3] == rgba@[4 * p + 3]
                },
        decreases rgba.len() - i,
    {
        let a: u8 = rgba[i + 3];
        out.push(scaled(rgba[i + 2], a));
        out.push(scaled(rgba[i + 1], a));
        out.push(scaled(rgba[i], a));
        out.push(a);
        i = i + 4;
    }
    out
}

/// Scaling by full opacity changes nothing, by none leaves nothing, and the
/// result never exceeds the opacity: the picture is one that the system can
/// blend.
pub proof fn premultiplied_stays_below_opacity(color: u8, opacity: u8)
    ensures
        premultiply(color, 255) == color,
        premultiply(color, 0) == 0,
        premultiply(color, opacity) <= opacity,
{
    assert(0 <= color * opacity <= 255 * opacity) by (nonlinear_arith)
        requires
            0 <= color <= 255,
            0 <= opacity,
    ;
}

/// A handle is taken along its own axis: opposite handles show the same shape,
/// those of the sides the straight axes, those of the corners the diagonals.
pub proof fn handles_show_their_axes(zone: CursorZone)
    ensures
        zone.shape() is SizeNS <==> zone == CursorZone::ResizeHandle(Handle::North) || zone
            == CursorZone::ResizeHandle(Handle::South),
        zone.shape() is SizeWE <==> zone == CursorZone::ResizeHandle(Handle::East) || zone
            == CursorZone::ResizeHandle(Handle::West),
        zone.shape() is SizeNESW <==> zone == CursorZone::ResizeHandle(Handle::NorthEast) || zone
            == CursorZone::ResizeHandle(Handle::SouthWest),
        zone.shape() is SizeNWSE <==> zone == CursorZone::ResizeHandle(Handle::NorthWest) || zone
            == CursorZone::ResizeHandle(Handle::SouthEast),
        zone.shape() is Move <==> zone is StickerBody,
        zone.shape() is Arrow <==> zone is Background,
        zone matches CursorZone::RotateZone(angle) ==> zone.shape() == CursorShape::Rotate(angle),
        zone.shape() is Rotate <==> zone is RotateZone,
{
}

/// A pixel of which so many of four sample points are covered is that share of
/// 255 opaque, to the nearest, a half going up.
pub proof fn opacity_is_the_covered_share(hits: u8)
    requires
        hits <= 4,
    ensures
        -2 <= 255 * hits - 4 * fill_opacity(hits) < 2,
{
}

/// A pixel of the picture is white where the figure covers any of it, black where
/// it is empty and a pixel next to it, on an axis or a diagonal, has at least three
/// of its four sample points covered, and nothing elsewhere.
pub proof fn figure_is_white_with_a_black_edge(hits: Seq<u8>, x: int, y: int)
    requires
        hits.len() == 1024,
        0 <= x < 32,
        0 <= y < 32,
    ensures
        ({
            let pixel = cursor_pixel(hits, x, y);
            let edge = exists|dx: int, dy: int|
                #![trigger hits[(y + dy) * 32 + (x + dx)]]
                -1 <= dx <= 1 && -1 <= dy <= 1 && (dx != 0 || dy != 0) && 0 <= x + dx < 32 && 0 <= y
                    + dy < 32 && hits[(y + dy) * 32 + (x + dx)] >= 3;
            &&& pixel.len() == 4
            &&& hits[y * 32 + x] > 0 ==> pixel[0] == 255 && pixel[1] == 255 && pixel[2] == 255
                && pixel[3] == fill_opacity(hits[y * 32 + x])
            &&& hits[y * 32 + x] == 0 ==> pixel[0] == 0 && pixel[1] == 0 && pixel[2] == 0
            &&& hits[y * 32 + x] == 0 && edge ==> pixel[3] == 255
            &&& hits[y * 32 + x] == 0 && !edge ==> pixel[3] == 0
        }),
{
    let edge = exists|dx: int, dy: int|
        #![trigger hits[(y + dy) * 32 + (x + dx)]]
        -1 <= dx <= 1 && -1 <= dy <= 1 && (dx != 0 || dy != 0) && 0 <= x + dx < 32 && 0 <= y + dy
            < 32 && hits[(y + dy) * 32 + (x + dx)] >= 3;
    if edge {
        let (dx, dy) = choose|dx: int, dy: int|
            #![trigger hits[(y + dy) * 32 + (x + dx)]]
            -1 <= dx <= 1 && -1 <= dy <= 1 && (dx != 0 || dy != 0) && 0 <= x + dx < 32 && 0 <= y
                + dy < 32 && hits[(y + dy) * 32 + (x + dx)] >= 3;
        assert(is_dense_neighbour(hits, x, y, x + dx, y + dy));
    }
    if beside_figure(hits, x, y) {
        let (nx, ny) = choose|nx: int, ny: int| #[trigger] is_dense_neighbour(hits, x, y, nx, ny);
        let dx = nx - x;
        let dy = ny - y;
        assert(hits[(y + dy) * 32 + (x + dx)] >= 3);
    }
}

/// A colour scaled by an opacity is that share of it, to the nearest.
pub proof fn premultiplied_is_nearest(color: u8, opacity: u8)
    ensures
        -255 <= 2 * (color * opacity) - 510 * premultiply(color, opacity) < 255,
{
    assert(0 <= color * opacity <= 255 * 255) by (nonlinear_arith)
        requires
            0 <= color <= 255,
            0 <= opacity <= 255,
    ;
}

} // verus!
