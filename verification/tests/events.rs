use rectangle_selection::drag_state::DragState;
use rectangle_selection::events::{CursorUpdate, Event, MouseKind, OfferKind, SourceKind};
use rectangle_selection::geometry::Rect;
use rectangle_selection::selection::RectangleSelection;

fn rect(left: i32, top: i32, right: i32, bottom: i32) -> Rect {
    Rect { left, top, right, bottom }
}

fn widget(state: DragState) -> RectangleSelection {
    RectangleSelection::new(rect(100, 50, 1100, 850), rect(200, 150, 300, 350), state, 7)
}

fn offer(id: Option<u128>, offer: OfferKind, over: bool, x: i32, y: i32) -> Event {
    Event::Offer { id, offer, over, x, y }
}

fn mouse(kind: MouseKind, over: bool, cursor: Option<(i64, i64)>, anchor: (i32, i32)) -> Event {
    Event::Mouse { mouse: kind, over, cursor, anchor }
}

#[test]
fn offer_for_other_session_is_ignored() {
    let mut w = widget(DragState::SE);
    let r = w.update(offer(Some(8), OfferKind::Motion, true, 10, 10));
    assert_eq!(r.cursor, CursorUpdate::Keep);
    assert_eq!(r.publish, None);
    assert!(!r.capture && !r.start_dnd);
    assert_eq!(w.drag_state, DragState::SE);
    let r = w.update(offer(None, OfferKind::Drop, true, 10, 10));
    assert_eq!(r.publish, None);
    assert_eq!(w.drag_state, DragState::SE);
}

#[test]
fn offer_while_idle_is_ignored() {
    let mut w = widget(DragState::Idle);
    let r = w.update(offer(Some(7), OfferKind::Drop, true, 10, 10));
    assert_eq!(r.cursor, CursorUpdate::Keep);
    assert_eq!(r.publish, None);
    assert!(!r.capture);
    assert_eq!(w.drag_state, DragState::Idle);
}

#[test]
fn motion_over_widget_drags() {
    let mut w = widget(DragState::SE);
    let r = w.update(offer(Some(7), OfferKind::Motion, true, 250, 350));
    assert_eq!(r.cursor, CursorUpdate::Remember);
    assert_eq!(r.publish, Some((DragState::SE, rect(200, 150, 350, 400))));
    assert!(r.capture);
    assert!(!r.start_dnd);
    assert_eq!(w.rectangle_selection, rect(200, 150, 350, 400));
    let r = w.update(offer(Some(7), OfferKind::Enter, true, 0, 0));
    assert_eq!(r.publish, Some((DragState::NW, rect(100, 50, 200, 150))));
    assert_eq!(w.drag_state, DragState::NW);
}

#[test]
fn motion_off_widget_only_remembers_pointer() {
    let mut w = widget(DragState::SE);
    let r = w.update(offer(Some(7), OfferKind::Motion, false, 250, 350));
    assert_eq!(r.cursor, CursorUpdate::Remember);
    assert_eq!(r.publish, None);
    assert!(!r.capture);
    assert_eq!(w.rectangle_selection, rect(200, 150, 300, 350));
}

#[test]
fn drop_ends_drag() {
    let mut w = widget(DragState::N);
    let r = w.update(offer(Some(7), OfferKind::Drop, false, 0, 0));
    assert_eq!(r.cursor, CursorUpdate::Forget);
    assert_eq!(r.publish, Some((DragState::Idle, rect(200, 150, 300, 350))));
    assert!(r.capture);
    assert_eq!(w.drag_state, DragState::Idle);
}

#[test]
fn other_offer_is_ignored() {
    let mut w = widget(DragState::N);
    let r = w.update(offer(Some(7), OfferKind::Other, true, 0, 0));
    assert_eq!(r.publish, None);
    assert_eq!(w.drag_state, DragState::N);
}

#[test]
fn source_end_ends_drag() {
    for kind in [SourceKind::Finished, SourceKind::Cancelled, SourceKind::Dropped] {
        let mut w = widget(DragState::E);
        let r = w.update(Event::Source { source: kind });
        assert_eq!(r.cursor, CursorUpdate::Forget);
        assert_eq!(r.publish, Some((DragState::Idle, rect(200, 150, 300, 350))));
        assert!(!r.capture);
        assert_eq!(w.drag_state, DragState::Idle);
    }
    let mut w = widget(DragState::E);
    let r = w.update(Event::Source { source: SourceKind::Other });
    assert_eq!(r.publish, None);
    assert_eq!(w.drag_state, DragState::E);
}

#[test]
fn press_beside_selection_starts_fresh_one() {
    let mut w = widget(DragState::Idle);
    let r = w.update(mouse(MouseKind::LeftPressed, true, Some((500, 500)), (600, 550)));
    assert!(r.start_dnd && r.capture);
    assert_eq!(r.publish, Some((DragState::SE, rect(600, 550, 601, 551))));
    assert_eq!(w.drag_state, DragState::SE);
    assert_eq!(w.rectangle_selection, rect(200, 150, 300, 350));
}

#[test]
fn press_on_corner_grabs_it() {
    let mut w = widget(DragState::Idle);
    let r = w.update(mouse(MouseKind::LeftPressed, true, Some((100, 100)), (200, 150)));
    assert!(r.start_dnd && r.capture);
    assert_eq!(r.publish, Some((DragState::NW, rect(200, 150, 300, 350))));
    assert_eq!(w.drag_state, DragState::NW);
}

#[test]
fn mouse_away_from_widget_only_tracks_pointer() {
    let mut w = widget(DragState::Idle);
    let r = w.update(mouse(MouseKind::CursorMoved, false, Some((1, 1)), (0, 0)));
    assert_eq!(r.cursor, CursorUpdate::Remember);
    assert!(!r.capture);
    let r = w.update(mouse(MouseKind::CursorLeft, false, None, (0, 0)));
    assert_eq!(r.cursor, CursorUpdate::Forget);
    let r = w.update(mouse(MouseKind::LeftPressed, false, Some((100, 100)), (0, 0)));
    assert!(!r.start_dnd);
    assert_eq!(r.publish, None);
    assert_eq!(w.drag_state, DragState::Idle);
}

#[test]
fn mouse_over_widget_is_captured() {
    let mut w = widget(DragState::Idle);
    let r = w.update(mouse(MouseKind::CursorMoved, true, Some((1, 1)), (0, 0)));
    assert_eq!(r.cursor, CursorUpdate::Remember);
    assert!(r.capture);
    assert_eq!(r.publish, None);
    let r = w.update(mouse(MouseKind::Other, true, Some((1, 1)), (0, 0)));
    assert_eq!(r.cursor, CursorUpdate::Keep);
    assert!(r.capture);
    let r = w.update(Event::Other);
    assert!(!r.capture);
}
