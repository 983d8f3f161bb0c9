//! The selection state of the widget: where the grab zones are, how a drag
//! reshapes the selection, and which pointer shape to show.

use vstd::prelude::*;
use crate::drag_state::{DragState, is_corner, is_vertical_edge, is_horizontal_edge};
use crate::geometry::{Rect, Rectangle, bounded, contains, span, span_fits, span_of};

verus! {

/// Side of the square grab zone centred on each corner of the selection.
pub const CORNER_DIAMETER: i64 = 16;

/// Thickness of the grab zone laid over each edge of the selection.
pub const EDGE_GRAB_THICKNESS: i64 = 8;

/// The logical state of a rectangle-selection widget on one output.
///
/// `output_rect` is the output's area in global coordinates and
/// `rectangle_selection` the current selection, also in global
/// coordinates. Pointer positions handed to the methods below are local to
/// the output, in whole logical pixels.
pub struct RectangleSelection {
    pub output_rect: Rect,
    pub rectangle_selection: Rect,
    pub drag_state: DragState,
    pub drag_id: u128,
}

/// The pointer shape the widget asks for.
#[derive(Debug, Clone, Copy, PartialEq, Eq, Structural)]
pub enum Interaction {
    Crosshair,
    Grab,
    Grabbing,
    ResizingVertically,
    ResizingHorizontally,
}

/// The selection `sel`, in coordinates local to `output`, with its size
/// taken as the distance between opposite edges.
pub open spec fn translated_inner(output: Rect, sel: Rect) -> Rectangle {
    Rectangle {
        x: (sel.left - output.left) as i64,
        y: (sel.top - output.top) as i64,
        width: span(sel.left, sel.right) as i64,
        height: span(sel.top, sel.bottom) as i64,
    }
}

/// The spans of the selection can be measured without leaving `i32`.
pub open spec fn selection_spans_fit(sel: Rect) -> bool {
    span_fits(sel.left, sel.right) && span_fits(sel.top, sel.bottom)
}

/// The square grab zone centred on `(cx, cy)`.
pub open spec fn corner_zone(cx: int, cy: int) -> Rectangle {
    Rectangle {
        x: (cx - CORNER_DIAMETER / 2) as i64,
        y: (cy - CORNER_DIAMETER / 2) as i64,
        width: CORNER_DIAMETER,
        height: CORNER_DIAMETER,
    }
}

/// The grab zone of each corner and edge of the selection `inner`.
pub open spec fn grab_zone(inner: Rectangle, s: DragState) -> Rectangle {
    let (x, y, w, h) = (inner.x as int, inner.y as int, inner.width as int, inner.height as int);
    let half = EDGE_GRAB_THICKNESS / 2;
    match s {
        DragState::NW => corner_zone(x, y),
        DragState::NE => corner_zone(x + w, y),
        DragState::SW => corner_zone(x, y + h),
        DragState::SE => corner_zone(x + w, y + h),
        DragState::N => Rectangle {
            x: x as i64,
            y: (y - half) as i64,
            width: w as i64,
            height: EDGE_GRAB_THICKNESS,
        },
        DragState::S => Rectangle {
            x: x as i64,
            y: (y + h - half) as i64,
            width: w as i64,
            height: EDGE_GRAB_THICKNESS,
        },
        DragState::W => Rectangle {
            x: (x - half) as i64,
            y: y as i64,
            width: EDGE_GRAB_THICKNESS,
            height: h as i64,
        },
        DragState::E => Rectangle {
            x: (x + w - half) as i64,
            y: y as i64,
            width: EDGE_GRAB_THICKNESS,
            height: h as i64,
        },
        DragState::Idle => Rectangle { x: 0, y: 0, width: 0, height: 0 },
    }
}

/// The part of the selection `inner` under the pointer: the first of the
/// corners NW, NE, SW, SE, then the edges N, S, W, E, whose grab zone holds
/// the pointer; `Idle` when none does or the pointer is elsewhere.
pub open spec fn hit_state(inner: Rectangle, cursor: Option<(i64, i64)>) -> DragState {
    match cursor {
        None => DragState::Idle,
        Some((px, py)) => {
            let at = |s: DragState| contains(grab_zone(inner, s), px as int, py as int);
            if at(DragState::NW) {
                DragState::NW
            } else if at(DragState::NE) {
                DragState::NE
            } else if at(DragState::SW) {
                DragState::SW
            } else if at(DragState::SE) {
                DragState::SE
            } else if at(DragState::N) {
                DragState::N
            } else if at(DragState::S) {
                DragState::S
            } else if at(DragState::W) {
                DragState::W
            } else if at(DragState::E) {
                DragState::E
            } else {
                DragState::Idle
            }
        },
    }
}

/// The pointer shape for a pointer over the zone `hovered` while the widget
/// is in the drag state `current`.
pub open spec fn interaction_for(hovered: DragState, current: DragState) -> Interaction {
    match hovered {
        DragState::Idle => if current == DragState::Idle {
            Interaction::Crosshair
        } else {
            Interaction::Grabbing
        },
        DragState::NW | DragState::NE | DragState::SE | DragState::SW => if current
            == DragState::Idle {
            Interaction::Grab
        } else {
            Interaction::Grabbing
        },
        DragState::N | DragState::S => Interaction::ResizingVertically,
        DragState::E | DragState::W => Interaction::ResizingHorizontally,
    }
}

/// The fixed point of a drag: the corner or edge opposite to the one held.
/// A drag past it on an axis flips the held side on that axis. For edge
/// drags only the coordinate across that edge is used, the other is zero.
pub open spec fn reflection_point(s: DragState, prev: Rect) -> (i32, i32) {
    match s {
        DragState::Idle => (0, 0),
        DragState::NW => (prev.right, prev.bottom),
        DragState::N => (0, prev.bottom),
        DragState::NE => (prev.left, prev.bottom),
        DragState::E => (prev.left, 0),
        DragState::SE => (prev.left, prev.top),
        DragState::S => (0, prev.top),
        DragState::SW => (prev.right, prev.top),
        DragState::W => (prev.right, 0),
    }
}

/// The side held after a drag from state `s` to the global point
/// `(dx, dy)`, given the reflection point `(rx, ry)`.
pub open spec fn next_state(s: DragState, rx: i32, ry: i32, dx: i32, dy: i32) -> DragState {
    if is_corner(s) {
        if dx < rx && dy < ry {
            DragState::NW
        } else if dx > rx && dy > ry {
            DragState::SE
        } else if dx > rx && dy < ry {
            DragState::NE
        } else if dx < rx && dy > ry {
            DragState::SW
        } else {
            s
        }
    } else if is_vertical_edge(s) {
        if dy < ry { DragState::N } else { DragState::S }
    } else if is_horizontal_edge(s) {
        if dx > rx { DragState::E } else { DragState::W }
    } else {
        DragState::Idle
    }
}

/// The selection after the held side `s` was moved to `(dx, dy)`, with the
/// reflection point `(rx, ry)` and the previous selection `prev`.
pub open spec fn dragged_rect(s: DragState, rx: i32, ry: i32, dx: i32, dy: i32, prev: Rect) -> Rect {
    match s {
        DragState::NW => Rect { left: dx, top: dy, right: rx, bottom: ry },
        DragState::NE => Rect { left: rx, top: dy, right: dx, bottom: ry },
        DragState::SE => Rect { left: rx, top: ry, right: dx, bottom: dy },
        DragState::SW => Rect { left: dx, top: ry, right: rx, bottom: dy },
        DragState::N => Rect { left: prev.left, top: dy, right: prev.right, bottom: ry },
        DragState::E => Rect { left: rx, top: prev.top, right: dx, bottom: prev.bottom },
        DragState::S => Rect { left: prev.left, top: ry, right: prev.right, bottom: dy },
        DragState::W => Rect { left: dx, top: prev.top, right: rx, bottom: prev.bottom },
        DragState::Idle => prev,
    }
}

/// The outcome of dragging the side `s` of `prev` to the global point
/// `(dx, dy)`: the new drag state and selection, or `None` when no drag is
/// in progress.
pub open spec fn drag(prev: Rect, s: DragState, dx: i32, dy: i32) -> Option<(DragState, Rect)> {
    if s == DragState::Idle {
        None
    } else {
        let (rx, ry) = reflection_point(s, prev);
        let t = next_state(s, rx, ry, dx, dy);
        Some((t, dragged_rect(t, rx, ry, dx, dy, prev)))
    }
}

/// A pointer position local to `output` can be moved to global
/// coordinates within `i32`.
pub open spec fn pointer_fits(output: Rect, x: i32, y: i32) -> bool {
    i32::MIN <= output.left + x <= i32::MAX && i32::MIN <= output.top + y <= i32::MAX
}

/// Drags the side `s` of `prev` to the global point `(dx, dy)`.
pub fn drag_to(prev: Rect, s: DragState, dx: i32, dy: i32) -> (res: Option<(DragState, Rect)>)
    ensures
        res == drag(prev, s, dx, dy),
{
    let (rx, ry): (i32, i32) = match s {
        DragState::Idle => { return None; },
        DragState::NW => (prev.right, prev.bottom),
        DragState::N => (0, prev.bottom),
        DragState::NE => (prev.left, prev.bottom),
        DragState::E => (prev.left, 0),
        DragState::SE => (prev.left, prev.top),
        DragState::S => (0, prev.top),
        DragState::SW => (prev.right, prev.top),
        DragState::W => (prev.right, 0),
    };
    let t = match s {
        DragState::SE | DragState::NW | DragState::NE | DragState::SW => {
            if dx < rx && dy < ry {
                DragState::NW
            } else if dx > rx && dy > ry {
                DragState::SE
            } else if dx > rx && dy < ry {
                DragState::NE
            } else if dx < rx && dy > ry {
                DragState::SW
            } else {
                s
            }
        },
        DragState::N | DragState::S => {
            if dy < ry {
                DragState::N
            } else {
                DragState::S
            }
        },
        DragState::E | DragState::W => {
            if dx > rx {
                DragState::E
            } else {
                DragState::W
            }
        },
        DragState::Idle => DragState::Idle,
    };
    let (left, top): (i32, i32) = match t {
        DragState::NW => (dx, dy),
        DragState::NE => (rx, dy),
        DragState::SE => (rx, ry),
        DragState::SW => (dx, ry),
        DragState::N => (prev.left, dy),
        DragState::E => (rx, prev.top),
        DragState::S => (prev.left, ry),
        DragState::W => (dx, prev.top),
        DragState::Idle => (prev.left, prev.top),
    };
    let (right, bottom): (i32, i32) = match t {
        DragState::NW => (rx, ry),
        DragState::NE => (dx, ry),
        DragState::SE => (dx, dy),
        DragState::SW => (rx, dy),
        DragState::N => (prev.right, ry),
        DragState::E => (dx, prev.bottom),
        DragState::S => (prev.right, dy),
        DragState::W => (rx, prev.bottom),
        DragState::Idle => (prev.right, prev.bottom),
    };
    Some((t, Rect { left, top, right, bottom }))
}

impl RectangleSelection {
    /// A widget state for the output `output_rect`, showing the selection
    /// `rectangle_selection`, in the drag state `drag_direction`, that
    /// answers drag-and-drop offers carrying the id `drag_id`.
    pub fn new(output_rect: Rect, rectangle_selection: Rect, drag_direction: DragState, drag_id: u128) -> (res: Self)
        ensures
            res.output_rect == output_rect,
            res.rectangle_selection == rectangle_selection,
            res.drag_state == drag_direction,
            res.drag_id == drag_id,
    {
        RectangleSelection { output_rect, rectangle_selection, drag_state: drag_direction, drag_id }
    }

    /// The width and height of the output.
    pub fn output_size(&self) -> (res: (i32, i32))
        requires
            selection_spans_fit(self.output_rect),
        ensures
            res.0 == span(self.output_rect.left, self.output_rect.right),
            res.1 == span(self.output_rect.top, self.output_rect.bottom),
    {
        (span_of(self.output_rect.left, self.output_rect.right), span_of(self.output_rect.top, self.output_rect.bottom))
    }

    /// The selection in coordinates local to the output.
    pub fn translated_inner_rect(&self) -> (res: Rectangle)
        requires
            selection_spans_fit(self.rectangle_selection),
        ensures
            res == translated_inner(self.output_rect, self.rectangle_selection),
            bounded(res),
            res.width >= 0,
            res.height >= 0,
    {
        let sel = self.rectangle_selection;
        let width = span_of(sel.left, sel.right);
        let height = span_of(sel.top, sel.bottom);
        Rectangle {
            x: sel.left as i64 - self.output_rect.left as i64,
            y: sel.top as i64 - self.output_rect.top as i64,
            width: width as i64,
            height: height as i64,
        }
    }

    /// The part of the selection under the pointer at `cursor` (local to
    /// the output, in whole pixels), or `Idle` when the pointer is not on a
    /// grab zone or not over the widget.
    pub fn drag_state(&self, cursor: Option<(i64, i64)>) -> (res: DragState)
        requires
            selection_spans_fit(self.rectangle_selection),
        ensures
            res == hit_state(translated_inner(self.output_rect, self.rectangle_selection), cursor),
    {
        let inner = self.translated_inner_rect();
        let (px, py) = match cursor {
            None => { return DragState::Idle; },
            Some(p) => p,
        };
        let half_corner = CORNER_DIAMETER / 2;
        let half_edge = EDGE_GRAB_THICKNESS / 2;
        let nw = Rectangle {
            x: inner.x - half_corner,
            y: inner.y - half_corner,
            width: CORNER_DIAMETER,
            height: CORNER_DIAMETER,
        };
        if nw.contains(px, py) {
            return DragState::NW;
        }
        let ne = Rectangle {
            x: inner.x + inner.width - half_corner,
            y: inner.y - half_corner,
            width: CORNER_DIAMETER,
            height: CORNER_DIAMETER,
        };
        if ne.contains(px, py) {
            return DragState::NE;
        }
        let sw = Rectangle {
            x: inner.x - half_corner,
            y: inner.y + inner.height - half_corner,
            width: CORNER_DIAMETER,
            height: CORNER_DIAMETER,
        };
        if sw.contains(px, py) {
            return DragState::SW;
        }
        let se = Rectangle {
            x: inner.x + inner.width - half_corner,
            y: inner.y + inner.height - half_corner,
            width: CORNER_DIAMETER,
            height: CORNER_DIAMETER,
        };
        if se.contains(px, py) {
            return DragState::SE;
        }
        let n = Rectangle {
            x: inner.x,
            y: inner.y - half_edge,
            width: inner.width,
            height: EDGE_GRAB_THICKNESS,
        };
        if n.contains(px, py) {
            return DragState::N;
        }
        let s = Rectangle {
            x: inner.x,
            y: inner.y + inner.height - half_edge,
            width: inner.width,
            height: EDGE_GRAB_THICKNESS,
        };
        if s.contains(px, py) {
            return DragState::S;
        }
        let w = Rectangle {
            x: inner.x - half_edge,
            y: inner.y,
            width: EDGE_GRAB_THICKNESS,
            height: inner.height,
        };
        if w.contains(px, py) {
            return DragState::W;
        }
        let e = Rectangle {
            x: inner.x + inner.width - half_edge,
            y: inner.y,
            width: EDGE_GRAB_THICKNESS,
            height: inner.height,
        };
        if e.contains(px, py) {
            return DragState::E;
        }
        DragState::Idle
    }

    /// Moves the held side of the selection to the pointer at `(x, y)`,
    /// local to the output. Returns the new drag state and selection to
    /// announce, or `None`, leaving everything as it was, when no drag is in
    /// progress.
    pub fn handle_drag_pos(&mut self, x: i32, y: i32) -> (res: Option<(DragState, Rect)>)
        requires
            pointer_fits(old(self).output_rect, x, y),
        ensures
            res == drag(
                old(self).rectangle_selection,
                old(self).drag_state,
                (old(self).output_rect.left + x) as i32,
                (old(self).output_rect.top + y) as i32,
            ),
            final(self).output_rect == old(self).output_rect,
            final(self).drag_id == old(self).drag_id,
            res matches Some((s, r)) ==> final(self).drag_state == s
                && final(self).rectangle_selection == r,
            res is None ==> final(self).drag_state == old(self).drag_state
                && final(self).rectangle_selection == old(self).rectangle_selection,
    {
        let d_x = self.output_rect.left + x;
        let d_y = self.output_rect.top + y;
        let res = drag_to(self.rectangle_selection, self.drag_state, d_x, d_y);
        if let Some((s, r)) = res {
            self.rectangle_selection = r;
            self.drag_state = s;
        }
        res
    }

    /// The pointer shape for a pointer at `cursor`.
    pub fn mouse_interaction(&self, cursor: Option<(i64, i64)>) -> (res: Interaction)
        requires
            selection_spans_fit(self.rectangle_selection),
        ensures
            res == interaction_for(
                hit_state(translated_inner(self.output_rect, self.rectangle_selection), cursor),
                self.drag_state,
            ),
    {
        match self.drag_state(cursor) {
            DragState::Idle => {
                if self.drag_state == DragState::Idle {
                    Interaction::Crosshair
                } else {
                    Interaction::Grabbing
                }
            },
            DragState::NW | DragState::NE | DragState::SE | DragState::SW => {
                if self.drag_state == DragState::Idle {
                    Interaction::Grab
                } else {
                    Interaction::Grabbing
                }
            },
            DragState::N | DragState::S => Interaction::ResizingVertically,
            DragState::E | DragState::W => Interaction::ResizingHorizontally,
        }
    }
}

/// The translated selection is the selection seen from the output's
/// top-left corner: its size is the distance between opposite edges, and for
/// a selection whose left and top edges come first, a local point lies in it
/// exactly when the global point lies between the selection's edges.
pub proof fn lemma_translated_inner_is_local_selection(output: Rect, sel: Rect, px: int, py: int)
    requires
        selection_spans_fit(sel),
    ensures
        translated_inner(output, sel).width == span(sel.left, sel.right),
        translated_inner(output, sel).height == span(sel.top, sel.bottom),
        (sel.left <= sel.right && sel.top <= sel.bottom) ==> (contains(
            translated_inner(output, sel),
            px,
            py,
        ) <==> (sel.left <= px + output.left < sel.right && sel.top <= py + output.top
            < sel.bottom)),
{
}

} // verus!
