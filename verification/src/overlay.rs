//! What the widget draws over its output: the selection, the shades that
//! darken the rest of the output, and the handles on the selection's
//! corners.

use vstd::prelude::*;
use crate::geometry::{
    COORD_LIMIT, Rect, Rectangle, bounded, contains, intersection, lemma_intersection_is_overlap,
    max_int, span, span_of,
};
use crate::selection::{CORNER_DIAMETER, RectangleSelection, selection_spans_fit};

verus! {

/// The shapes to draw, in coordinates local to the output.
pub struct Overlay {
    /// The part of the selection that lies on the output.
    pub selection: Rectangle,
    /// The shades above, below, left of and right of the selection, in that
    /// order, leaving out those without area.
    pub shades: Vec<Rectangle>,
    /// A square on each corner of the selection that lies on the output, in
    /// the order top-left, top-right, bottom-left, bottom-right.
    pub handles: Vec<Rectangle>,
}

/// A rectangle in global coordinates with its size measured between
/// opposite edges.
pub open spec fn global_rect(r: Rect) -> Rectangle {
    Rectangle {
        x: r.left as i64,
        y: r.top as i64,
        width: span(r.left, r.right) as i64,
        height: span(r.top, r.bottom) as i64,
    }
}

/// The part of `sel` on `output`, in coordinates local to `output`.
pub open spec fn clipped_selection(output: Rect, sel: Rect) -> Option<Rectangle> {
    match intersection(global_rect(sel), global_rect(output)) {
        None => None,
        Some(c) => Some(
            Rectangle {
                x: (c.x - output.left) as i64,
                y: (c.y - output.top) as i64,
                width: c.width,
                height: c.height,
            },
        ),
    }
}

/// The four shades around the clipped selection `t` on an output of size
/// `ow` by `oh`: above, below, left and right.
pub open spec fn shade_rects(t: Rectangle, ow: int, oh: int) -> (Rectangle, Rectangle, Rectangle, Rectangle) {
    let below = t.y + t.height;
    let beside = t.x + t.width;
    (
        Rectangle { x: 0, y: 0, width: ow as i64, height: max_int(t.y as int, 0) as i64 },
        Rectangle { x: 0, y: below as i64, width: ow as i64, height: max_int(oh - below, 0) as i64 },
        Rectangle { x: 0, y: t.y, width: max_int(t.x as int, 0) as i64, height: t.height },
        Rectangle { x: beside as i64, y: t.y, width: max_int(ow - beside, 0) as i64, height: t.height },
    )
}

/// A rectangle with a positive width and height.
pub open spec fn has_area(r: Rectangle) -> bool {
    r.width > 0 && r.height > 0
}

/// `s` with `r` appended when `r` has an area.
pub open spec fn push_if_area(s: Seq<Rectangle>, r: Rectangle) -> Seq<Rectangle> {
    if has_area(r) { s.push(r) } else { s }
}

/// The shades that are drawn: those with an area, in order.
pub open spec fn drawn_shades(t: Rectangle, ow: int, oh: int) -> Seq<Rectangle> {
    let (a, b, c, d) = shade_rects(t, ow, oh);
    push_if_area(push_if_area(push_if_area(push_if_area(Seq::empty(), a), b), c), d)
}

/// The handle square on the global point `(cx, cy)`, local to `output`.
pub open spec fn handle_at(output: Rect, cx: int, cy: int) -> Rectangle {
    Rectangle {
        x: (cx - output.left - CORNER_DIAMETER / 2) as i64,
        y: (cy - output.top - CORNER_DIAMETER / 2) as i64,
        width: CORNER_DIAMETER,
        height: CORNER_DIAMETER,
    }
}

/// `s` with the handle on `(cx, cy)` appended when that point lies on the
/// output.
pub open spec fn push_handle(s: Seq<Rectangle>, output: Rect, cx: int, cy: int) -> Seq<Rectangle> {
    if contains(global_rect(output), cx, cy) { s.push(handle_at(output, cx, cy)) } else { s }
}

/// The handles that are drawn for the selection `sel` on `output`.
pub open spec fn drawn_handles(output: Rect, sel: Rect) -> Seq<Rectangle> {
    let i = global_rect(sel);
    let (x, y, w, h) = (i.x as int, i.y as int, i.width as int, i.height as int);
    push_handle(
        push_handle(push_handle(push_handle(Seq::empty(), output, x, y), output, x + w, y), output, x, y + h),
        output,
        x + w,
        y + h,
    )
}

/// The number of the five parts (selection and four shades) holding the
/// point `(px, py)`.
pub open spec fn parts_holding(t: Rectangle, ow: int, oh: int, px: int, py: int) -> int {
    let (a, b, c, d) = shade_rects(t, ow, oh);
    (if contains(t, px, py) { 1int } else { 0 }) + (if contains(a, px, py) { 1int } else { 0 }) + (
    if contains(b, px, py) { 1int } else { 0 }) + (if contains(c, px, py) { 1int } else { 0 }) + (
    if contains(d, px, py) { 1int } else { 0 })
}

impl RectangleSelection {
    /// The shapes to draw, or `None` when the selection does not overlap the
    /// output with a positive area.
    pub fn selection_overlay(&self) -> (res: Option<Overlay>)
        requires
            selection_spans_fit(self.rectangle_selection),
            selection_spans_fit(self.output_rect),
        ensures
            clipped_selection(self.output_rect, self.rectangle_selection) matches Some(t) ==> {
                &&& res matches Some(o)
                &&& o.selection == t
                &&& o.shades@ == drawn_shades(
                    t,
                    span(self.output_rect.left, self.output_rect.right),
                    span(self.output_rect.top, self.output_rect.bottom),
                )
                &&& o.handles@ == drawn_handles(self.output_rect, self.rectangle_selection)
            },
            clipped_selection(self.output_rect, self.rectangle_selection) is None ==> res is None,
    {
        let out = self.output_rect;
        let sel = self.rectangle_selection;
        let ow = span_of(out.left, out.right) as i64;
        let oh = span_of(out.top, out.bottom) as i64;
        let outer = Rectangle { x: out.left as i64, y: out.top as i64, width: ow, height: oh };
        let inner = Rectangle {
            x: sel.left as i64,
            y: sel.top as i64,
            width: span_of(sel.left, sel.right) as i64,
            height: span_of(sel.top, sel.bottom) as i64,
        };
        let clipped = match inner.intersection(&outer) {
            None => { return None; },
            Some(c) => c,
        };
        let t = Rectangle {
            x: clipped.x - outer.x,
            y: clipped.y - outer.y,
            width: clipped.width,
            height: clipped.height,
        };
        let below = t.y + t.height;
        let beside = t.x + t.width;
        let top = Rectangle { x: 0, y: 0, width: ow, height: if t.y >= 0 { t.y } else { 0 } };
        let bottom = Rectangle {
            x: 0,
            y: below,
            width: ow,
            height: if oh - below >= 0 { oh - below } else { 0 },
        };
        let left = Rectangle { x: 0, y: t.y, width: if t.x >= 0 { t.x } else { 0 }, height: t.height };
        let right = Rectangle {
            x: beside,
            y: t.y,
            width: if ow - beside >= 0 { ow - beside } else { 0 },
            height: t.height,
        };
        let mut shades: Vec<Rectangle> = Vec::new();
        if top.width > 0 && top.height > 0 {
            shades.push(top);
        }
        if bottom.width > 0 && bottom.height > 0 {
            shades.push(bottom);
        }
        if left.width > 0 && left.height > 0 {
            shades.push(left);
        }
        if right.width > 0 && right.height > 0 {
            shades.push(right);
        }
        let mut handles: Vec<Rectangle> = Vec::new();
        let (x, y) = (inner.x, inner.y);
        let (x2, y2) = (inner.x + inner.width, inner.y + inner.height);
        add_handle(&mut handles, out, &outer, x, y);
        add_handle(&mut handles, out, &outer, x2, y);
        add_handle(&mut handles, out, &outer, x, y2);
        add_handle(&mut handles, out, &outer, x2, y2);
        Some(Overlay { selection: t, shades, handles })
    }
}

/// Appends the handle on the global point `(cx, cy)` when it lies on the
/// output `out`, whose global rectangle is `outer`.
fn add_handle(handles: &mut Vec<Rectangle>, out: Rect, outer: &Rectangle, cx: i64, cy: i64)
    requires
        *outer == global_rect(out),
        -COORD_LIMIT <= cx <= COORD_LIMIT,
        -COORD_LIMIT <= cy <= COORD_LIMIT,
    ensures
        final(handles)@ == push_handle(old(handles)@, out, cx as int, cy as int),
{
    if outer.contains(cx, cy) {
        handles.push(
            Rectangle {
                x: cx - out.left as i64 - CORNER_DIAMETER / 2,
                y: cy - out.top as i64 - CORNER_DIAMETER / 2,
                width: CORNER_DIAMETER,
                height: CORNER_DIAMETER,
            },
        );
    }
}

/// The selection and the four shades tile the output: every point of the
/// output lies in exactly one of them, and no point outside the output lies
/// in any.
pub proof fn lemma_overlay_tiles_output(output: Rect, sel: Rect, px: int, py: int)
    requires
        selection_spans_fit(sel),
        selection_spans_fit(output),
        clipped_selection(output, sel) is Some,
    ensures
        ({
            let t = clipped_selection(output, sel).unwrap();
            let ow = span(output.left, output.right);
            let oh = span(output.top, output.bottom);
            parts_holding(t, ow, oh, px, py) == if 0 <= px < ow && 0 <= py < oh {
                1int
            } else {
                0int
            }
        }),
{
}

/// The drawn part of the selection lies on the output and has an area.
pub proof fn lemma_clipped_selection_on_output(output: Rect, sel: Rect)
    requires
        selection_spans_fit(sel),
        selection_spans_fit(output),
        clipped_selection(output, sel) is Some,
    ensures
        ({
            let t = clipped_selection(output, sel).unwrap();
            &&& has_area(t)
            &&& 0 <= t.x && t.x + t.width <= span(output.left, output.right)
            &&& 0 <= t.y && t.y + t.height <= span(output.top, output.bottom)
        }),
{
}

/// The drawn selection is exactly the part of the selection on the output:
/// it exists whenever the selection and the output share a point, and a
/// local point lies in it exactly when the corresponding global point lies
/// in both the selection and the output.
pub proof fn lemma_clipped_selection_is_overlap(output: Rect, sel: Rect)
    requires
        selection_spans_fit(sel),
        selection_spans_fit(output),
    ensures
        (exists|gx: int, gy: int|
            #[trigger] contains(global_rect(sel), gx, gy) && #[trigger] contains(
                global_rect(output),
                gx,
                gy,
            )) <==> clipped_selection(output, sel) is Some,
        clipped_selection(output, sel) matches Some(t) ==> forall|px: int, py: int|
            #[trigger] contains(t, px, py) <==> (contains(
                global_rect(sel),
                px + output.left,
                py + output.top,
            ) && contains(global_rect(output), px + output.left, py + output.top)),
{
    assert(bounded(global_rect(sel)) && bounded(global_rect(output)));
    lemma_intersection_is_overlap(global_rect(sel), global_rect(output));
    if clipped_selection(output, sel) is Some {
        let r0 = intersection(global_rect(sel), global_rect(output)).unwrap();
        assert(contains(r0, r0.x as int, r0.y as int));
        assert(contains(global_rect(sel), r0.x as int, r0.y as int));
        assert(contains(global_rect(output), r0.x as int, r0.y as int));
        let t = clipped_selection(output, sel).unwrap();
        assert forall|px: int, py: int|
            #[trigger] contains(t, px, py) <==> (contains(
                global_rect(sel),
                px + output.left,
                py + output.top,
            ) && contains(global_rect(output), px + output.left, py + output.top)) by {
            let r = intersection(global_rect(sel), global_rect(output)).unwrap();
            assert(contains(r, px + output.left, py + output.top) == contains(t, px, py));
        }
    }
}

/// One of the four corners of `sel`, in global coordinates.
pub open spec fn is_corner_of(sel: Rect, cx: int, cy: int) -> bool {
    let r = global_rect(sel);
    (cx == r.x || cx == r.x + r.width) && (cy == r.y || cy == r.y + r.height)
}

/// Each drawn handle is a 16-pixel square centred, in coordinates local to
/// the output, on a corner of the selection that lies on the output; at most
/// four are drawn, and every corner on the output gets one.
pub proof fn lemma_handles_sit_on_corners(output: Rect, sel: Rect)
    requires
        selection_spans_fit(sel),
        selection_spans_fit(output),
    ensures
        drawn_handles(output, sel).len() <= 4,
        forall|i: int|
            0 <= i < drawn_handles(output, sel).len() ==> {
                let hd = #[trigger] drawn_handles(output, sel)[i];
                let (cx, cy) = (hd.x + 8 + output.left, hd.y + 8 + output.top);
                &&& hd.width == 16 && hd.height == 16
                &&& is_corner_of(sel, cx, cy)
                &&& contains(global_rect(output), cx, cy)
            },
        forall|cx: int, cy: int|
            is_corner_of(sel, cx, cy) && #[trigger] contains(global_rect(output), cx, cy) ==> exists|i: int|
                0 <= i < drawn_handles(output, sel).len() && #[trigger] drawn_handles(output, sel)[i]
                    == handle_at(output, cx, cy),
{
    let r = global_rect(sel);
    let (x, y, w, h) = (r.x as int, r.y as int, r.width as int, r.height as int);
    let s0 = Seq::<Rectangle>::empty();
    let s1 = push_handle(s0, output, x, y);
    let s2 = push_handle(s1, output, x + w, y);
    let s3 = push_handle(s2, output, x, y + h);
    let s4 = push_handle(s3, output, x + w, y + h);
    assert(drawn_handles(output, sel) == s4);
    assert forall|cx: int, cy: int|
        is_corner_of(sel, cx, cy) && #[trigger] contains(global_rect(output), cx, cy) implies exists|i: int|
            0 <= i < s4.len() && #[trigger] s4[i] == handle_at(output, cx, cy) by {
        if cx == x + w && cy == y + h {
            assert(s4[s4.len() - 1] == handle_at(output, cx, cy));
        } else if cx == x && cy == y + h {
            assert(s3[s3.len() - 1] == handle_at(output, cx, cy));
            assert(s4[s3.len() - 1] == s3[s3.len() - 1]);
        } else if cx == x + w && cy == y {
            assert(s2[s2.len() - 1] == handle_at(output, cx, cy));
            assert(s3[s2.len() - 1] == s2[s2.len() - 1]);
            assert(s4[s2.len() - 1] == s2[s2.len() - 1]);
        } else {
            assert(s1[0] == handle_at(output, cx, cy));
            assert(s2[0] == s1[0]);
            assert(s3[0] == s1[0]);
            assert(s4[0] == s1[0]);
        }
    }
}

} // verus!
