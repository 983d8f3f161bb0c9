//! Integer rectangles: the selection and output bounds in edge form
//! ([`Rect`]) and the origin-and-size form used for drawing and hit tests
//! ([`Rectangle`]).

use vstd::prelude::*;

verus! {

/// A rectangle given by its four edges, in global coordinates.
///
/// Nothing forces `left <= right` or `top <= bottom`: a selection being
/// dragged past its anchor is stored as it was computed.
#[derive(Debug, Clone, Copy, PartialEq, Eq, Structural)]
pub struct Rect {
    pub left: i32,
    pub top: i32,
    pub right: i32,
    pub bottom: i32,
}

/// A rectangle given by its top-left corner and its size.
///
/// A point `(px, py)` lies inside when `x <= px < x + width` and
/// `y <= py < y + height`: the top and left edges belong to the rectangle,
/// the bottom and right edges do not.
#[derive(Debug, Clone, Copy, PartialEq, Eq, Structural)]
pub struct Rectangle {
    pub x: i64,
    pub y: i64,
    pub width: i64,
    pub height: i64,
}

/// A bound on every coordinate and size that the widget computes from
/// `i32` edges; far from the limits of `i64`.
pub const COORD_LIMIT: i64 = 0x10_0000_0000;

/// The fields of `r` lie within `COORD_LIMIT` of zero.
pub open spec fn bounded(r: Rectangle) -> bool {
    &&& -COORD_LIMIT <= r.x <= COORD_LIMIT
    &&& -COORD_LIMIT <= r.y <= COORD_LIMIT
    &&& -COORD_LIMIT <= r.width <= COORD_LIMIT
    &&& -COORD_LIMIT <= r.height <= COORD_LIMIT
}

/// The point `(px, py)` lies inside `r`.
pub open spec fn contains(r: Rectangle, px: int, py: int) -> bool {
    &&& r.x <= px < r.x + r.width
    &&& r.y <= py < r.y + r.height
}

pub open spec fn max_int(a: int, b: int) -> int {
    if a >= b { a } else { b }
}

pub open spec fn min_int(a: int, b: int) -> int {
    if a <= b { a } else { b }
}

/// The common part of two rectangles, when it has a positive area.
pub open spec fn intersection(a: Rectangle, b: Rectangle) -> Option<Rectangle> {
    let x = max_int(a.x as int, b.x as int);
    let y = max_int(a.y as int, b.y as int);
    let width = min_int(a.x + a.width, b.x + b.width) - x;
    let height = min_int(a.y + a.height, b.y + b.height) - y;
    if width > 0 && height > 0 {
        Some(Rectangle { x: x as i64, y: y as i64, width: width as i64, height: height as i64 })
    } else {
        None
    }
}

/// The distance between two edges, as a size: `|to - from|`.
pub open spec fn span(from: i32, to: i32) -> int {
    if to >= from { to - from } else { from - to }
}

/// The difference `to - from` can be taken, and its absolute value
/// taken again, within `i32`.
pub open spec fn span_fits(from: i32, to: i32) -> bool {
    -i32::MAX <= to - from <= i32::MAX
}

impl Rectangle {
    /// Whether the point `(px, py)` lies inside this rectangle.
    pub fn contains(&self, px: i64, py: i64) -> (res: bool)
        ensures
            res == contains(*self, px as int, py as int),
    {
        let x = self.x as i128;
        let y = self.y as i128;
        x <= px as i128 && (px as i128) < x + self.width as i128 && y <= py as i128
            && (py as i128) < y + self.height as i128
    }

    /// The common part of two rectangles, or `None` when they do not
    /// overlap with a positive area.
    pub fn intersection(&self, other: &Rectangle) -> (res: Option<Rectangle>)
        requires
            bounded(*self),
            bounded(*other),
        ensures
            res == intersection(*self, *other),
            res matches Some(r) ==> bounded(r) && r.width > 0 && r.height > 0,
    {
        let x = if self.x >= other.x { self.x } else { other.x };
        let y = if self.y >= other.y { self.y } else { other.y };
        let a_right = self.x + self.width;
        let b_right = other.x + other.width;
        let a_bottom = self.y + self.height;
        let b_bottom = other.y + other.height;
        let right = if a_right <= b_right { a_right } else { b_right };
        let bottom = if a_bottom <= b_bottom { a_bottom } else { b_bottom };
        let width = right - x;
        let height = bottom - y;
        if width > 0 && height > 0 {
            Some(Rectangle { x, y, width, height })
        } else {
            None
        }
    }
}

/// `|to - from|` for two edges whose distance fits in `i32`.
pub fn span_of(from: i32, to: i32) -> (res: i32)
    requires
        span_fits(from, to),
    ensures
        res == span(from, to),
        res >= 0,
{
    let d = to - from;
    if d >= 0 { d } else { -d }
}

/// The intersection is exactly the common part of the two rectangles: it
/// exists when some point lies in both, and then it holds a point exactly
/// when both rectangles do.
pub proof fn lemma_intersection_is_overlap(a: Rectangle, b: Rectangle)
    requires
        bounded(a),
        bounded(b),
    ensures
        intersection(a, b) is None ==> forall|px: int, py: int|
            !(#[trigger] contains(a, px, py) && #[trigger] contains(b, px, py)),
        intersection(a, b) matches Some(r) ==> forall|px: int, py: int|
            #[trigger] contains(r, px, py) <==> (contains(a, px, py) && contains(b, px, py)),
        (exists|px: int, py: int| #[trigger] contains(a, px, py) && #[trigger] contains(b, px, py))
            ==> intersection(a, b) is Some,
{
}

} // verus!
