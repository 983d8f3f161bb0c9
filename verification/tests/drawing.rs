use rectangle_selection::geometry::{Rect, Rectangle};
use rectangle_selection::magnifier::magnifier_grid;
use rectangle_selection::mime::{MyData, MIME, PAYLOAD};
use rectangle_selection::drag_state::DragState;
use rectangle_selection::selection::RectangleSelection;

fn rect(left: i32, top: i32, right: i32, bottom: i32) -> Rect {
    Rect { left, top, right, bottom }
}

fn r(x: i64, y: i64, width: i64, height: i64) -> Rectangle {
    Rectangle { x, y, width, height }
}

fn widget(output: Rect, sel: Rect) -> RectangleSelection {
    RectangleSelection::new(output, sel, DragState::Idle, 1)
}

#[test]
fn overlay_inside_output() {
    let w = widget(rect(100, 50, 1100, 850), rect(200, 150, 300, 350));
    let o = w.selection_overlay().unwrap();
    assert_eq!(o.selection, r(100, 100, 100, 200));
    assert_eq!(
        o.shades,
        vec![r(0, 0, 1000, 100), r(0, 300, 1000, 500), r(0, 100, 100, 200), r(200, 100, 800, 200)]
    );
    assert_eq!(
        o.handles,
        vec![r(92, 92, 16, 16), r(192, 92, 16, 16), r(92, 292, 16, 16), r(192, 292, 16, 16)]
    );
}

#[test]
fn overlay_clipped_to_output() {
    // the selection runs off the top-left corner of the output
    let w = widget(rect(100, 50, 1100, 850), rect(0, 0, 300, 350));
    let o = w.selection_overlay().unwrap();
    assert_eq!(o.selection, r(0, 0, 200, 300));
    assert_eq!(o.shades, vec![r(0, 300, 1000, 500), r(200, 0, 800, 300)]);
    assert_eq!(o.handles, vec![r(192, 292, 16, 16)]);
}

#[test]
fn overlay_handle_on_far_edge_is_left_out() {
    let w = widget(rect(0, 0, 100, 100), rect(50, 50, 100, 100));
    let o = w.selection_overlay().unwrap();
    assert_eq!(o.selection, r(50, 50, 50, 50));
    assert_eq!(o.handles, vec![r(42, 42, 16, 16)]);
}

#[test]
fn overlay_absent_when_selection_misses_output() {
    let w = widget(rect(100, 50, 1100, 850), rect(1200, 150, 1300, 350));
    assert!(w.selection_overlay().is_none());
    let flat = widget(rect(100, 50, 1100, 850), rect(200, 150, 200, 350));
    assert!(flat.selection_overlay().is_none());
}

#[test]
fn overlay_tiles_small_output() {
    let w = widget(rect(10, 20, 30, 35), rect(14, 18, 22, 30));
    let o = w.selection_overlay().unwrap();
    let inside = |b: &Rectangle, x: i64, y: i64| b.x <= x && x < b.x + b.width && b.y <= y && y < b.y + b.height;
    for x in -3..23 {
        for y in -3..18 {
            let mut n = if inside(&o.selection, x, y) { 1 } else { 0 };
            for s in &o.shades {
                if inside(s, x, y) {
                    n += 1;
                }
            }
            let on_output = (0..20).contains(&x) && (0..15).contains(&y);
            assert_eq!(n, if on_output { 1 } else { 0 }, "point {x},{y}");
        }
    }
}

#[test]
fn magnifier_grid_clamps_to_image() {
    let g = magnifier_grid(2, 50, 100, 60);
    assert_eq!(g.len(), 225);
    assert_eq!(g[0], (0, 43));
    assert_eq!(g[7 * 15 + 7], (2, 50));
    assert_eq!(g[14], (9, 43));
    assert_eq!(g[14 * 15 + 14], (9, 57));
    let edge = magnifier_grid(99, 59, 100, 60);
    assert_eq!(edge[14 * 15 + 14], (99, 59));
    assert_eq!(edge[0], (92, 52));
}

#[test]
fn magnifier_visibility() {
    let w = widget(rect(0, 0, 100, 100), rect(0, 0, 10, 10));
    assert!(w.magnifier_visible(200, 200));
    assert!(!w.magnifier_visible(0, 200));
    let empty = widget(rect(0, 0, 0, 100), rect(0, 0, 10, 10));
    assert!(!empty.magnifier_visible(200, 200));
}

#[test]
fn mime_payload() {
    assert_eq!(MyData::allowed(), vec![MIME.to_string()]);
    assert_eq!(MyData.available(), vec!["X-COSMIC-PORTAL-MyData".to_string()]);
    assert_eq!(MyData.as_bytes("text/plain"), Some(b"rectangle".to_vec()));
    assert_eq!(PAYLOAD, "rectangle");
    let d: MyData = MyData::from((vec![1, 2], "x".to_string()));
    assert_eq!(d, MyData);
}
