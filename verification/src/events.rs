//! How the widget reacts to pointer and drag-and-drop events.
//!
//! The toolkit's events are reduced to plain values before they reach
//! [`RectangleSelection::update`]; the reaction says what the caller must
//! do: remember or forget the pointer position, start a drag-and-drop
//! session, announce a drag state and selection, and stop the event from
//! reaching other widgets.

use vstd::prelude::*;
use crate::drag_state::DragState;
use crate::geometry::Rect;
use crate::selection::{
    RectangleSelection, drag, hit_state, pointer_fits, selection_spans_fit, translated_inner,
};

verus! {

/// The kind of a drag-and-drop offer event.
#[derive(Debug, Clone, Copy, PartialEq, Eq, Structural)]
pub enum OfferKind {
    Enter,
    Motion,
    Drop,
    Other,
}

/// The kind of a drag-and-drop source event.
#[derive(Debug, Clone, Copy, PartialEq, Eq, Structural)]
pub enum SourceKind {
    Finished,
    Cancelled,
    Dropped,
    Other,
}

/// The kind of a mouse event.
#[derive(Debug, Clone, Copy, PartialEq, Eq, Structural)]
pub enum MouseKind {
    CursorMoved,
    CursorLeft,
    LeftPressed,
    Other,
}

/// An event, with what the widget reads of it.
#[derive(Debug, Clone, Copy)]
pub enum Event {
    /// A drag-and-drop offer for the session `id`. For `Enter` and
    /// `Motion`, `over` tells whether the offered position lies over the
    /// widget and `(x, y)` is that position rounded to whole pixels.
    Offer { id: Option<u128>, offer: OfferKind, over: bool, x: i32, y: i32 },
    /// An event of the drag-and-drop session this widget started.
    Source { source: SourceKind },
    /// A mouse event. `over` tells whether the pointer lies over the
    /// widget, `cursor` is its position in whole pixels (`None` when the
    /// pointer is unavailable), and `anchor` is the global position where a
    /// fresh selection starts: the pointer position (the origin when
    /// unavailable) moved by the output's offset, truncated to `i32`.
    Mouse { mouse: MouseKind, over: bool, cursor: Option<(i64, i64)>, anchor: (i32, i32) },
    /// Any other event.
    Other,
}

/// What to do with the remembered pointer position.
#[derive(Debug, Clone, Copy, PartialEq, Eq, Structural)]
pub enum CursorUpdate {
    Keep,
    /// Remember the position carried by the event.
    Remember,
    Forget,
}

/// What the caller must do after an event.
#[derive(Debug, Clone, Copy)]
pub struct Reaction {
    pub cursor: CursorUpdate,
    /// Start a drag-and-drop session from this widget's surface.
    pub start_dnd: bool,
    /// A drag state and selection to announce.
    pub publish: Option<(DragState, Rect)>,
    /// Keep the event from other widgets.
    pub capture: bool,
}

/// A reaction that only updates the remembered pointer position.
pub open spec fn only_cursor(c: CursorUpdate) -> Reaction {
    Reaction { cursor: c, start_dnd: false, publish: None, capture: false }
}

/// A source event that ends the drag.
pub open spec fn ends_drag(kind: SourceKind) -> bool {
    kind is Finished || kind is Cancelled || kind is Dropped
}

/// The one-pixel selection started at `anchor`.
pub open spec fn fresh_selection(anchor: (i32, i32)) -> Rect {
    Rect {
        left: anchor.0,
        top: anchor.1,
        right: (anchor.0 + 1) as i32,
        bottom: (anchor.1 + 1) as i32,
    }
}

/// The event can be handled without leaving `i32`: a drag offer moves the
/// selection only to points that fit, a press measures a selection whose
/// spans fit, and a press beside the selection starts one whose far edges
/// fit.
pub open spec fn event_fits(w: RectangleSelection, e: Event) -> bool {
    match e {
        Event::Offer { id, offer: kind, over, x, y } => (id == Some(w.drag_id) && w.drag_state
            != DragState::Idle && (kind is Enter || kind is Motion)) ==> pointer_fits(
            w.output_rect,
            x,
            y,
        ),
        Event::Mouse { mouse: kind, over, cursor, anchor } => (over && kind is LeftPressed) ==> {
            &&& selection_spans_fit(w.rectangle_selection)
            &&& anchor.0 < i32::MAX
            &&& anchor.1 < i32::MAX
        },
        _ => true,
    }
}

/// The drag state and selection after the event `e`, and the reaction.
pub open spec fn step(w: RectangleSelection, e: Event) -> (DragState, Rect, Reaction) {
    let unchanged = (w.drag_state, w.rectangle_selection, only_cursor(CursorUpdate::Keep));
    match e {
        Event::Offer { id, offer: kind, over, x, y } => {
            if id != Some(w.drag_id) || w.drag_state == DragState::Idle {
                unchanged
            } else {
                match kind {
                    OfferKind::Enter | OfferKind::Motion => {
                        if !over {
                            (w.drag_state, w.rectangle_selection, only_cursor(CursorUpdate::Remember))
                        } else {
                            let d = drag(
                                w.rectangle_selection,
                                w.drag_state,
                                (w.output_rect.left + x) as i32,
                                (w.output_rect.top + y) as i32,
                            ).unwrap();
                            (
                                d.0,
                                d.1,
                                Reaction {
                                    cursor: CursorUpdate::Remember,
                                    start_dnd: false,
                                    publish: Some(d),
                                    capture: true,
                                },
                            )
                        }
                    },
                    OfferKind::Drop => (
                        DragState::Idle,
                        w.rectangle_selection,
                        Reaction {
                            cursor: CursorUpdate::Forget,
                            start_dnd: false,
                            publish: Some((DragState::Idle, w.rectangle_selection)),
                            capture: true,
                        },
                    ),
                    OfferKind::Other => unchanged,
                }
            }
        },
        Event::Source { source: kind } => {
            if ends_drag(kind) {
                (
                    DragState::Idle,
                    w.rectangle_selection,
                    Reaction {
                        cursor: CursorUpdate::Forget,
                        start_dnd: false,
                        publish: Some((DragState::Idle, w.rectangle_selection)),
                        capture: false,
                    },
                )
            } else {
                unchanged
            }
        },
        Event::Mouse { mouse: kind, over, cursor, anchor } => {
            let c = match kind {
                MouseKind::CursorMoved => CursorUpdate::Remember,
                MouseKind::CursorLeft => CursorUpdate::Forget,
                _ => CursorUpdate::Keep,
            };
            if !over {
                (w.drag_state, w.rectangle_selection, only_cursor(c))
            } else if kind is LeftPressed {
                let h = hit_state(translated_inner(w.output_rect, w.rectangle_selection), cursor);
                if h == DragState::Idle {
                    (
                        DragState::SE,
                        w.rectangle_selection,
                        Reaction {
                            cursor: c,
                            start_dnd: true,
                            publish: Some((DragState::SE, fresh_selection(anchor))),
                            capture: true,
                        },
                    )
                } else {
                    (
                        h,
                        w.rectangle_selection,
                        Reaction {
                            cursor: c,
                            start_dnd: true,
                            publish: Some((h, w.rectangle_selection)),
                            capture: true,
                        },
                    )
                }
            } else {
                (
                    w.drag_state,
                    w.rectangle_selection,
                    Reaction { cursor: c, start_dnd: false, publish: None, capture: true },
                )
            }
        },
        Event::Other => unchanged,
    }
}

impl RectangleSelection {
    /// Handles one event: updates the drag state and the selection and says
    /// what the caller must do.
    pub fn update(&mut self, event: Event) -> (res: Reaction)
        requires
            event_fits(*old(self), event),
        ensures
            step(*old(self), event) == (final(self).drag_state, final(self).rectangle_selection, res),
            final(self).output_rect == old(self).output_rect,
            final(self).drag_id == old(self).drag_id,
    {
        let keep = Reaction { cursor: CursorUpdate::Keep, start_dnd: false, publish: None, capture: false };
        match event {
            Event::Offer { id, offer: kind, over, x, y } => {
                let matches_id = match id {
                    Some(i) => i == self.drag_id,
                    None => false,
                };
                if !matches_id {
                    return keep;
                }
                if self.drag_state == DragState::Idle {
                    return keep;
                }
                match kind {
                    OfferKind::Enter | OfferKind::Motion => {
                        let set = Reaction {
                            cursor: CursorUpdate::Remember,
                            start_dnd: false,
                            publish: None,
                            capture: false,
                        };
                        if !over {
                            return set;
                        }
                        let published = self.handle_drag_pos(x, y);
                        Reaction {
                            cursor: CursorUpdate::Remember,
                            start_dnd: false,
                            publish: published,
                            capture: true,
                        }
                    },
                    OfferKind::Drop => {
                        self.drag_state = DragState::Idle;
                        Reaction {
                            cursor: CursorUpdate::Forget,
                            start_dnd: false,
                            publish: Some((DragState::Idle, self.rectangle_selection)),
                            capture: true,
                        }
                    },
                    OfferKind::Other => keep,
                }
            },
            Event::Source { source: kind } => {
                match kind {
                    SourceKind::Finished | SourceKind::Cancelled | SourceKind::Dropped => {
                        self.drag_state = DragState::Idle;
                        Reaction {
                            cursor: CursorUpdate::Forget,
                            start_dnd: false,
                            publish: Some((DragState::Idle, self.rectangle_selection)),
                            capture: false,
                        }
                    },
                    SourceKind::Other => keep,
                }
            },
            Event::Mouse { mouse: kind, over, cursor, anchor } => {
                let c = match kind {
                    MouseKind::CursorMoved => CursorUpdate::Remember,
                    MouseKind::CursorLeft => CursorUpdate::Forget,
                    _ => CursorUpdate::Keep,
                };
                if !over {
                    return Reaction { cursor: c, start_dnd: false, publish: None, capture: false };
                }
                match kind {
                    MouseKind::LeftPressed => {
                        let s = self.drag_state(cursor);
                        if s == DragState::Idle {
                            self.drag_state = DragState::SE;
                            let fresh = Rect {
                                left: anchor.0,
                                top: anchor.1,
                                right: anchor.0 + 1,
                                bottom: anchor.1 + 1,
                            };
                            Reaction {
                                cursor: c,
                                start_dnd: true,
                                publish: Some((DragState::SE, fresh)),
                                capture: true,
                            }
                        } else {
                            self.drag_state = s;
                            Reaction {
                                cursor: c,
                                start_dnd: true,
                                publish: Some((s, self.rectangle_selection)),
                                capture: true,
                            }
                        }
                    },
                    _ => Reaction { cursor: c, start_dnd: false, publish: None, capture: true },
                }
            },
            Event::Other => keep,
        }
    }
}

} // verus!
