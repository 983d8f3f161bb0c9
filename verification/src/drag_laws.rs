//! Properties that every drag keeps.

use vstd::prelude::*;
use crate::drag_state::{DragState, is_corner, is_vertical_edge, is_horizontal_edge};
use crate::geometry::{Rect, Rectangle, bounded};
use crate::selection::{Interaction, drag, hit_state, interaction_for, reflection_point};

verus! {

/// The two values `a` and `b` are `p` and `q`, in some order.
pub open spec fn pair_of(a: i32, b: i32, p: i32, q: i32) -> bool {
    (a == p && b == q) || (a == q && b == p)
}

/// Left does not exceed right and top does not exceed bottom.
pub open spec fn well_ordered(r: Rect) -> bool {
    r.left <= r.right && r.top <= r.bottom
}

/// A drag happens exactly when a side is held, and the side held afterwards
/// is of the same kind: a corner stays a corner, the top or bottom edge
/// stays the top or bottom edge, the left or right edge stays the left or
/// right edge.
pub proof fn lemma_drag_keeps_kind(prev: Rect, s: DragState, dx: i32, dy: i32)
    ensures
        drag(prev, s, dx, dy) is None <==> s == DragState::Idle,
        drag(prev, s, dx, dy) matches Some((t, r)) ==> {
            &&& is_corner(t) == is_corner(s)
            &&& is_vertical_edge(t) == is_vertical_edge(s)
            &&& is_horizontal_edge(t) == is_horizontal_edge(s)
        },
{
}

/// The anchor of a drag stays put: the reflection point of the new state in
/// the new selection is that of the old state in the old selection, on
/// every axis the drag works on.
pub proof fn lemma_drag_keeps_anchor(prev: Rect, s: DragState, dx: i32, dy: i32)
    ensures
        drag(prev, s, dx, dy) matches Some((t, r)) ==> {
            let (rx, ry) = reflection_point(s, prev);
            let (nx, ny) = reflection_point(t, r);
            &&& (is_corner(s) || is_horizontal_edge(s)) ==> nx == rx
            &&& (is_corner(s) || is_vertical_edge(s)) ==> ny == ry
        },
{
}

/// A drag spans the selection between the pointer and the anchor: on each
/// axis the drag works on, the two edges are the pointer's coordinate and
/// the anchor's, and on an axis it does not work on the edges stay as they
/// were.
pub proof fn lemma_drag_follows_pointer(prev: Rect, s: DragState, dx: i32, dy: i32)
    ensures
        drag(prev, s, dx, dy) matches Some((t, r)) ==> {
            let (rx, ry) = reflection_point(s, prev);
            &&& (is_corner(s) || is_horizontal_edge(s)) ==> pair_of(r.left, r.right, dx, rx)
            &&& (is_corner(s) || is_vertical_edge(s)) ==> pair_of(r.top, r.bottom, dy, ry)
            &&& is_vertical_edge(s) ==> r.left == prev.left && r.right == prev.right
            &&& is_horizontal_edge(s) ==> r.top == prev.top && r.bottom == prev.bottom
        },
{
}

/// Repeating a drag to the same point changes nothing.
pub proof fn lemma_drag_idempotent(prev: Rect, s: DragState, dx: i32, dy: i32)
    ensures
        drag(prev, s, dx, dy) matches Some((t, r)) ==> drag(r, t, dx, dy) == Some((t, r)),
{
}

/// A drag keeps a well-ordered selection well ordered, unless a corner is
/// dragged onto the row or the column of its anchor.
pub proof fn lemma_drag_keeps_order(prev: Rect, s: DragState, dx: i32, dy: i32)
    requires
        well_ordered(prev),
        is_corner(s) ==> dx != reflection_point(s, prev).0 && dy != reflection_point(s, prev).1,
    ensures
        drag(prev, s, dx, dy) matches Some((t, r)) ==> well_ordered(r),
{
}

/// On a selection at least eight pixels wide and high, a pointer on a
/// corner grabs that corner.
pub proof fn lemma_corner_grabs_corner(inner: Rectangle)
    requires
        inner.width >= 8,
        inner.height >= 8,
        bounded(inner),
    ensures
        hit_state(inner, Some((inner.x, inner.y))) == DragState::NW,
        hit_state(inner, Some(((inner.x + inner.width) as i64, inner.y))) == DragState::NE,
        hit_state(inner, Some((inner.x, (inner.y + inner.height) as i64))) == DragState::SW,
        hit_state(inner, Some(((inner.x + inner.width) as i64, (inner.y + inner.height) as i64)))
            == DragState::SE,
{
}

/// A pointer on an edge, at least eight pixels from its corners, grabs that
/// edge.
pub proof fn lemma_edge_grabs_edge(inner: Rectangle, px: i64, py: i64)
    requires
        inner.width >= 0,
        inner.height >= 0,
        bounded(inner),
    ensures
        inner.x + 8 <= px < inner.x + inner.width - 8 ==> hit_state(inner, Some((px, inner.y)))
            == DragState::N,
        inner.x + 8 <= px < inner.x + inner.width - 8 && inner.height >= 8 ==> hit_state(
            inner,
            Some((px, (inner.y + inner.height) as i64)),
        ) == DragState::S,
        inner.y + 8 <= py < inner.y + inner.height - 8 ==> hit_state(inner, Some((inner.x, py)))
            == DragState::W,
        inner.y + 8 <= py < inner.y + inner.height - 8 && inner.width >= 8 ==> hit_state(
            inner,
            Some(((inner.x + inner.width) as i64, py)),
        ) == DragState::E,
{
}

/// A pointer at least eight pixels inside every edge of the selection grabs
/// nothing, and neither does an unavailable pointer.
pub proof fn lemma_interior_grabs_nothing(inner: Rectangle, px: i64, py: i64)
    requires
        bounded(inner),
        inner.x + 8 <= px < inner.x + inner.width - 8,
        inner.y + 8 <= py < inner.y + inner.height - 8,
    ensures
        hit_state(inner, Some((px, py))) == DragState::Idle,
        hit_state(inner, None) == DragState::Idle,
{
}

/// Every grab zone lies on the outline of the selection: a corner is
/// grabbed only within 8 pixels of that corner on each axis, and an edge
/// only along its length and within 4 pixels of its line. In particular a
/// pointer more than 8 pixels away from the selection's outline grabs
/// nothing.
pub proof fn lemma_grab_lies_on_outline(inner: Rectangle, px: i64, py: i64)
    requires
        bounded(inner),
        inner.width >= 0,
        inner.height >= 0,
    ensures
        ({
            let h = hit_state(inner, Some((px, py)));
            let (x, y, w, v) = (inner.x as int, inner.y as int, inner.width as int, inner.height as int);
            &&& h == DragState::NW ==> x - 8 <= px < x + 8 && y - 8 <= py < y + 8
            &&& h == DragState::NE ==> x + w - 8 <= px < x + w + 8 && y - 8 <= py < y + 8
            &&& h == DragState::SW ==> x - 8 <= px < x + 8 && y + v - 8 <= py < y + v + 8
            &&& h == DragState::SE ==> x + w - 8 <= px < x + w + 8 && y + v - 8 <= py < y + v + 8
            &&& h == DragState::N ==> x <= px < x + w && y - 4 <= py < y + 4
            &&& h == DragState::S ==> x <= px < x + w && y + v - 4 <= py < y + v + 4
            &&& h == DragState::W ==> x - 4 <= px < x + 4 && y <= py < y + v
            &&& h == DragState::E ==> x + w - 4 <= px < x + w + 4 && y <= py < y + v
            &&& (px < x - 8 || px >= x + w + 8 || py < y - 8 || py >= y + v + 8) ==> h
                == DragState::Idle
        }),
{
}

/// Every point of a grab zone grabs it, unless it also lies in the zone of a
/// corner, which takes precedence: the whole 16-pixel square around a corner
/// grabs the corner (on a selection large enough that the squares do not
/// overlap), and the whole 8-pixel strip along an edge, away from the corner
/// squares, grabs the edge.
pub proof fn lemma_zone_points_grab(inner: Rectangle, px: i64, py: i64)
    requires
        bounded(inner),
        inner.width >= 0,
        inner.height >= 0,
    ensures
        ({
            let h = hit_state(inner, Some((px, py)));
            let (x, y, w, v) = (inner.x as int, inner.y as int, inner.width as int, inner.height as int);
            &&& (x - 8 <= px < x + 8 && y - 8 <= py < y + 8) ==> h == DragState::NW
            &&& (w >= 16 && x + w - 8 <= px < x + w + 8 && y - 8 <= py < y + 8) ==> h
                == DragState::NE
            &&& (v >= 16 && x - 8 <= px < x + 8 && y + v - 8 <= py < y + v + 8) ==> h
                == DragState::SW
            &&& (w >= 16 && v >= 16 && x + w - 8 <= px < x + w + 8 && y + v - 8 <= py < y + v + 8)
                ==> h == DragState::SE
            &&& (x + 8 <= px < x + w - 8 && y - 4 <= py < y + 4) ==> h == DragState::N
            &&& (v >= 8 && x + 8 <= px < x + w - 8 && y + v - 4 <= py < y + v + 4) ==> h
                == DragState::S
            &&& (y + 8 <= py < y + v - 8 && x - 4 <= px < x + 4) ==> h == DragState::W
            &&& (w >= 8 && y + 8 <= py < y + v - 8 && x + w - 4 <= px < x + w + 4) ==> h
                == DragState::E
        }),
{
}

/// The pointer shape over an edge shows the axis the edge moves along: a
/// resize across rows for the top and bottom edges, across columns for the
/// left and right edges, whatever the drag state. Elsewhere it shows a
/// crosshair when idle over no zone, an open hand when idle over a corner,
/// and a closed hand during a drag.
pub proof fn lemma_pointer_shape_matches_zone(hovered: DragState, current: DragState)
    ensures
        is_vertical_edge(hovered) ==> interaction_for(hovered, current)
            == Interaction::ResizingVertically,
        is_horizontal_edge(hovered) ==> interaction_for(hovered, current)
            == Interaction::ResizingHorizontally,
        (hovered == DragState::Idle && current == DragState::Idle) ==> interaction_for(
            hovered,
            current,
        ) == Interaction::Crosshair,
        (is_corner(hovered) && current == DragState::Idle) ==> interaction_for(hovered, current)
            == Interaction::Grab,
        (!is_vertical_edge(hovered) && !is_horizontal_edge(hovered) && current != DragState::Idle)
            ==> interaction_for(hovered, current) == Interaction::Grabbing,
{
}

} // verus!
