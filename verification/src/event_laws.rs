//! Properties of the widget's reaction to events.

use vstd::prelude::*;
use crate::drag_state::{DragState, is_corner, is_horizontal_edge, is_vertical_edge};
use crate::events::{CursorUpdate, Event, MouseKind, OfferKind, ends_drag, event_fits, only_cursor, step};
use crate::selection::{RectangleSelection, hit_state, translated_inner};

verus! {

/// A drag-and-drop offer for another session, or any offer while no drag
/// is in progress, changes nothing and asks for nothing.
pub proof fn lemma_offer_ignored_unless_dragging(w: RectangleSelection, e: Event)
    requires
        e is Offer,
        e->Offer_id != Some(w.drag_id) || w.drag_state == DragState::Idle,
    ensures
        step(w, e) == (w.drag_state, w.rectangle_selection, only_cursor(CursorUpdate::Keep)),
{
}

/// A drop on this widget's session, or the end of the session it started,
/// ends the drag: the widget is idle again, keeps its selection, forgets the
/// pointer and announces the idle state with that selection.
pub proof fn lemma_drag_end_goes_idle(w: RectangleSelection, e: Event)
    requires
        (e is Offer && e->Offer_id == Some(w.drag_id) && w.drag_state != DragState::Idle
            && e->Offer_offer == OfferKind::Drop) || (e is Source && ends_drag(e->Source_source)),
    ensures
        step(w, e).0 == DragState::Idle,
        step(w, e).1 == w.rectangle_selection,
        step(w, e).2.cursor == CursorUpdate::Forget,
        step(w, e).2.publish == Some((DragState::Idle, w.rectangle_selection)),
{
}

/// A left press over the widget always starts a drag-and-drop session and
/// puts the widget in a drag state; the state announced is the new one.
pub proof fn lemma_press_starts_drag(w: RectangleSelection, e: Event)
    requires
        e is Mouse,
        e->Mouse_over,
        e->Mouse_mouse == MouseKind::LeftPressed,
    ensures
        step(w, e).0 != DragState::Idle,
        step(w, e).2.start_dnd,
        step(w, e).2.capture,
        step(w, e).2.publish matches Some((s, r)) && s == step(w, e).0,
{
}

/// Whatever is announced carries the drag state the widget holds after the
/// event, and the selection it holds, except for a press beside the
/// selection, which announces a fresh one-pixel selection.
pub proof fn lemma_announcement_matches_state(w: RectangleSelection, e: Event)
    requires
        event_fits(w, e),
    ensures
        step(w, e).2.publish matches Some((s, r)) ==> {
            &&& s == step(w, e).0
            &&& (r == step(w, e).1 || (e is Mouse && e->Mouse_mouse == MouseKind::LeftPressed
                && s == DragState::SE && r.right == r.left + 1 && r.bottom == r.top + 1))
        },
{
}

/// Only a drag offer that moves over the widget during a drag of this
/// widget's session changes the selection.
pub proof fn lemma_selection_changes_only_by_dragging(w: RectangleSelection, e: Event)
    requires
        step(w, e).1 != w.rectangle_selection,
    ensures
        e is Offer,
        e->Offer_id == Some(w.drag_id),
        w.drag_state != DragState::Idle,
        e->Offer_offer == OfferKind::Enter || e->Offer_offer == OfferKind::Motion,
        e->Offer_over,
{
}

/// An event that starts a drag-and-drop session is a left press over the
/// widget; the session is started nowhere else.
pub proof fn lemma_dnd_starts_only_on_press(w: RectangleSelection, e: Event)
    requires
        step(w, e).2.start_dnd,
    ensures
        e is Mouse,
        e->Mouse_over,
        e->Mouse_mouse == MouseKind::LeftPressed,
{
}

/// A left press over the widget grabs what lies under the pointer: when the
/// pointer is on a corner or an edge of the selection the widget takes that
/// drag state and announces it with the selection kept as it is; only when
/// it is on none of them does a fresh one-pixel selection start at the
/// anchor, dragged by its bottom-right corner.
pub proof fn lemma_press_grabs_what_is_under_pointer(w: RectangleSelection, e: Event)
    requires
        e is Mouse,
        e->Mouse_over,
        e->Mouse_mouse == MouseKind::LeftPressed,
        event_fits(w, e),
    ensures
        ({
            let h = hit_state(translated_inner(w.output_rect, w.rectangle_selection), e->Mouse_cursor);
            let a = e->Mouse_anchor;
            &&& h != DragState::Idle ==> step(w, e).0 == h && step(w, e).1 == w.rectangle_selection
                && step(w, e).2.publish == Some((h, w.rectangle_selection))
            &&& h == DragState::Idle ==> step(w, e).0 == DragState::SE && step(w, e).1
                == w.rectangle_selection && (step(w, e).2.publish matches Some((s, r)) && s
                == DragState::SE && r.left == a.0 && r.top == a.1 && r.right == a.0 + 1 && r.bottom
                == a.1 + 1)
        }),
{
}

/// A drag offer moving over the widget during its drag moves the held side
/// of the selection to the pointer, taken in global coordinates (the offered
/// local position plus the output's offset), and announces the result; the
/// side held stays of the same kind.
pub proof fn lemma_motion_moves_held_side_to_pointer(w: RectangleSelection, e: Event)
    requires
        e is Offer,
        e->Offer_id == Some(w.drag_id),
        w.drag_state != DragState::Idle,
        e->Offer_offer == OfferKind::Enter || e->Offer_offer == OfferKind::Motion,
        e->Offer_over,
        event_fits(w, e),
    ensures
        ({
            let (t, r, re) = step(w, e);
            let gx = w.output_rect.left + e->Offer_x;
            let gy = w.output_rect.top + e->Offer_y;
            &&& re.publish == Some((t, r))
            &&& re.capture
            &&& re.cursor == CursorUpdate::Remember
            &&& is_corner(t) == is_corner(w.drag_state)
            &&& is_vertical_edge(t) == is_vertical_edge(w.drag_state)
            &&& (is_corner(t) || is_horizontal_edge(t)) ==> (r.left == gx || r.right == gx)
            &&& (is_corner(t) || is_vertical_edge(t)) ==> (r.top == gy || r.bottom == gy)
            &&& is_vertical_edge(t) ==> r.left == w.rectangle_selection.left && r.right
                == w.rectangle_selection.right
            &&& is_horizontal_edge(t) ==> r.top == w.rectangle_selection.top && r.bottom
                == w.rectangle_selection.bottom
        }),
{
}

} // verus!
