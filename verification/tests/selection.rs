use rectangle_selection::drag_state::DragState;
use rectangle_selection::geometry::{Rect, Rectangle};
use rectangle_selection::selection::{drag_to, Interaction, RectangleSelection};

fn rect(left: i32, top: i32, right: i32, bottom: i32) -> Rect {
    Rect { left, top, right, bottom }
}

fn widget(sel: Rect, state: DragState) -> RectangleSelection {
    RectangleSelection::new(rect(100, 50, 1100, 850), sel, state, 7)
}

#[test]
fn drag_state_numbers_round_trip() {
    for n in 0u8..=8 {
        assert_eq!(DragState::from(n).as_u8(), n);
    }
    assert_eq!(DragState::from(0), DragState::Idle);
    assert_eq!(DragState::from(5), DragState::SE);
    assert_eq!(DragState::W.as_u8(), 8);
    assert_eq!(DragState::default(), DragState::Idle);
}

#[test]
fn translated_inner_rect_is_local_and_measures_spans() {
    let w = widget(rect(300, 250, 200, 400), DragState::Idle);
    assert_eq!(
        w.translated_inner_rect(),
        Rectangle { x: 200, y: 200, width: 100, height: 150 }
    );
    assert_eq!(w.output_size(), (1000, 800));
}

#[test]
fn grab_zones_in_priority_order() {
    // local selection: x 100..200, y 100..300
    let w = widget(rect(200, 150, 300, 350), DragState::Idle);
    assert_eq!(w.drag_state(Some((100, 100))), DragState::NW);
    assert_eq!(w.drag_state(Some((92, 92))), DragState::NW);
    assert_eq!(w.drag_state(Some((91, 100))), DragState::Idle);
    assert_eq!(w.drag_state(Some((200, 100))), DragState::NE);
    assert_eq!(w.drag_state(Some((207, 107))), DragState::NE);
    assert_eq!(w.drag_state(Some((208, 100))), DragState::Idle);
    assert_eq!(w.drag_state(Some((100, 300))), DragState::SW);
    assert_eq!(w.drag_state(Some((200, 300))), DragState::SE);
    assert_eq!(w.drag_state(Some((150, 96))), DragState::N);
    assert_eq!(w.drag_state(Some((150, 104))), DragState::Idle);
    assert_eq!(w.drag_state(Some((150, 303))), DragState::S);
    assert_eq!(w.drag_state(Some((96, 200))), DragState::W);
    assert_eq!(w.drag_state(Some((203, 200))), DragState::E);
    assert_eq!(w.drag_state(Some((150, 200))), DragState::Idle);
    assert_eq!(w.drag_state(None), DragState::Idle);
}

#[test]
fn corner_zones_win_over_edges_on_small_selections() {
    // a 10 by 10 selection: the corner squares cover the edges
    let w = widget(rect(200, 150, 210, 160), DragState::Idle);
    assert_eq!(w.drag_state(Some((105, 100))), DragState::NW);
    assert_eq!(w.drag_state(Some((109, 100))), DragState::NE);
}

#[test]
fn corner_drag_follows_pointer_and_flips() {
    let prev = rect(10, 10, 20, 20);
    assert_eq!(drag_to(prev, DragState::SE, 30, 40), Some((DragState::SE, rect(10, 10, 30, 40))));
    assert_eq!(drag_to(prev, DragState::SE, 5, 25), Some((DragState::SW, rect(5, 10, 10, 25))));
    assert_eq!(drag_to(prev, DragState::SE, 5, 5), Some((DragState::NW, rect(5, 5, 10, 10))));
    assert_eq!(drag_to(prev, DragState::SE, 25, 5), Some((DragState::NE, rect(10, 5, 25, 10))));
    assert_eq!(drag_to(prev, DragState::NW, 15, 12), Some((DragState::NW, rect(15, 12, 20, 20))));
    // on the anchor's column the held corner stays
    assert_eq!(drag_to(prev, DragState::SE, 10, 40), Some((DragState::SE, rect(10, 10, 10, 40))));
    assert_eq!(drag_to(prev, DragState::NW, 20, 30), Some((DragState::NW, rect(20, 30, 20, 20))));
}

#[test]
fn edge_drag_moves_one_edge() {
    let prev = rect(10, 10, 20, 20);
    assert_eq!(drag_to(prev, DragState::N, 99, 5), Some((DragState::N, rect(10, 5, 20, 20))));
    assert_eq!(drag_to(prev, DragState::N, 99, 30), Some((DragState::S, rect(10, 20, 20, 30))));
    assert_eq!(drag_to(prev, DragState::S, 99, 10), Some((DragState::S, rect(10, 10, 20, 10))));
    assert_eq!(drag_to(prev, DragState::E, 30, 99), Some((DragState::E, rect(10, 10, 30, 20))));
    assert_eq!(drag_to(prev, DragState::E, 10, 99), Some((DragState::W, rect(10, 10, 10, 20))));
    assert_eq!(drag_to(prev, DragState::W, 0, 99), Some((DragState::W, rect(0, 10, 20, 20))));
    assert_eq!(drag_to(prev, DragState::Idle, 0, 0), None);
}

#[test]
fn repeated_drag_changes_nothing() {
    let starts = [DragState::NW, DragState::N, DragState::NE, DragState::E, DragState::SE, DragState::S, DragState::SW, DragState::W];
    let prev = rect(10, 10, 20, 20);
    for s in starts {
        for (x, y) in [(0, 0), (15, 15), (10, 30), (30, 20), (25, 5)] {
            let (t, r) = drag_to(prev, s, x, y).unwrap();
            assert_eq!(drag_to(r, t, x, y), Some((t, r)));
        }
    }
}

#[test]
fn handle_drag_pos_uses_global_coordinates() {
    let mut w = widget(rect(200, 150, 300, 350), DragState::SE);
    let res = w.handle_drag_pos(250, 350);
    assert_eq!(res, Some((DragState::SE, rect(200, 150, 350, 400))));
    assert_eq!(w.rectangle_selection, rect(200, 150, 350, 400));
    assert_eq!(w.drag_state, DragState::SE);

    let mut idle = widget(rect(200, 150, 300, 350), DragState::Idle);
    assert_eq!(idle.handle_drag_pos(0, 0), None);
    assert_eq!(idle.rectangle_selection, rect(200, 150, 300, 350));
}

#[test]
fn pointer_shapes() {
    let idle = widget(rect(200, 150, 300, 350), DragState::Idle);
    assert_eq!(idle.mouse_interaction(Some((150, 200))), Interaction::Crosshair);
    assert_eq!(idle.mouse_interaction(Some((100, 100))), Interaction::Grab);
    assert_eq!(idle.mouse_interaction(Some((150, 100))), Interaction::ResizingVertically);
    assert_eq!(idle.mouse_interaction(Some((100, 200))), Interaction::ResizingHorizontally);
    let busy = widget(rect(200, 150, 300, 350), DragState::SE);
    assert_eq!(busy.mouse_interaction(Some((150, 200))), Interaction::Grabbing);
    assert_eq!(busy.mouse_interaction(Some((100, 100))), Interaction::Grabbing);
    assert_eq!(busy.mouse_interaction(Some((150, 300))), Interaction::ResizingVertically);
}
