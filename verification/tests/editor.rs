use bezier_editor::editor::{PointerEvent, State};
use bezier_editor::geometry::{Curve, Point, PointHandle};
use bezier_editor::hit_test::DragState;

fn editor_with_curve(a: Point, d: Point) -> State {
    let mut state = State::new();
    state.pointer_down(a);
    state.pointer_down(d);
    state
}

#[test]
fn new_editor_is_empty() {
    let state = State::new();
    assert!(state.curves().is_empty());
    assert_eq!(state.drag_state(), None);
    assert_eq!(state.new_curve(), None);
    assert_eq!(state.mouse(), Point::new(0, 0));
    assert!(state.is_wf());
}

#[test]
fn first_click_sets_the_pending_anchor() {
    let mut state = State::new();
    let redraw = state.pointer_down(Point::new(10, 10));
    assert!(!redraw);
    assert_eq!(state.new_curve(), Some(Point::new(10, 10)));
    assert!(state.curves().is_empty());
    assert_eq!(state.drag_state(), None);
    assert_eq!(state.mouse(), Point::new(10, 10));
}

#[test]
fn second_click_completes_the_curve() {
    let mut state = State::new();
    state.pointer_down(Point::new(10, 10));
    let redraw = state.pointer_down(Point::new(310, 10));
    assert!(redraw);
    assert_eq!(
        state.curves(),
        &vec![Curve::new(
            Point::new(10, 10),
            Point::new(110, 10),
            Point::new(210, 10),
            Point::new(310, 10)
        )]
    );
    assert_eq!(state.new_curve(), None);
    assert_eq!(state.drag_state(), None);
    assert_eq!(state.mouse(), Point::new(310, 10));
}

#[test]
fn click_sequence_with_button_releases() {
    let mut state = State::new();
    assert!(!state.dispatch(PointerEvent::Down(Point::new(0, 0))));
    assert!(!state.dispatch(PointerEvent::Up));
    assert!(state.dispatch(PointerEvent::Move(Point::new(150, 150))));
    assert!(state.dispatch(PointerEvent::Down(Point::new(300, 300))));
    assert!(!state.dispatch(PointerEvent::Up));
    assert_eq!(
        state.curves(),
        &vec![Curve::new(
            Point::new(0, 0),
            Point::new(100, 100),
            Point::new(200, 200),
            Point::new(300, 300)
        )]
    );
    assert_eq!(state.new_curve(), None);
}

#[test]
fn curves_keep_the_order_in_which_they_were_made() {
    let mut state = editor_with_curve(Point::new(0, 0), Point::new(30, 0));
    state.pointer_down(Point::new(0, 100));
    state.pointer_down(Point::new(30, 100));
    state.pointer_down(Point::new(0, 200));
    state.pointer_down(Point::new(30, 200));
    assert_eq!(
        state.curves(),
        &vec![
            Curve::straight(Point::new(0, 0), Point::new(30, 0)),
            Curve::straight(Point::new(0, 100), Point::new(30, 100)),
            Curve::straight(Point::new(0, 200), Point::new(30, 200)),
        ]
    );
}

#[test]
fn press_on_a_handle_starts_a_drag() {
    let mut state = editor_with_curve(Point::new(0, 0), Point::new(300, 300));
    let before = state.curves().clone();
    let redraw = state.pointer_down(Point::new(0, 0));
    assert!(!redraw);
    assert_eq!(state.drag_state(), Some(DragState::new(0, PointHandle::A)));
    assert_eq!(state.curves(), &before);
    assert_eq!(state.new_curve(), None);
    assert_eq!(state.mouse(), Point::new(0, 0));
}

#[test]
fn press_within_the_radius_starts_a_drag() {
    let mut state = editor_with_curve(Point::new(0, 0), Point::new(300, 300));
    state.pointer_down(Point::new(102, 97));
    assert_eq!(state.drag_state(), Some(DragState::new(0, PointHandle::B)));
    assert_eq!(state.mouse(), Point::new(102, 97));
}

#[test]
fn dragged_point_follows_the_pointer() {
    let mut state = editor_with_curve(Point::new(0, 0), Point::new(300, 300));
    state.pointer_down(Point::new(0, 0));
    assert_eq!(state.drag_state(), Some(DragState::new(0, PointHandle::A)));

    let redraw = state.pointer_move(Point::new(5, 5));
    assert!(redraw);
    assert_eq!(state.curves()[0].a, Point::new(5, 5));
    assert_eq!(state.mouse(), Point::new(5, 5));

    let redraw = state.pointer_move(Point::new(8, 5));
    assert!(redraw);
    assert_eq!(state.curves()[0].a, Point::new(8, 5));
    assert_eq!(state.mouse(), Point::new(8, 5));

    assert_eq!(state.curves()[0].b, Point::new(100, 100));
    assert_eq!(state.curves()[0].c, Point::new(200, 200));
    assert_eq!(state.curves()[0].d, Point::new(300, 300));
    assert_eq!(state.drag_state(), Some(DragState::new(0, PointHandle::A)));
}

#[test]
fn dragged_point_keeps_its_offset_from_the_pointer() {
    let mut state = editor_with_curve(Point::new(0, 0), Point::new(300, 300));
    state.pointer_down(Point::new(203, 198));
    assert_eq!(state.drag_state(), Some(DragState::new(0, PointHandle::C)));
    state.pointer_move(Point::new(213, 178));
    assert_eq!(state.curves()[0].c, Point::new(210, 180));
    state.pointer_move(Point::new(203, 198));
    assert_eq!(state.curves()[0].c, Point::new(200, 200));
}

#[test]
fn drag_moves_the_curve_that_was_hit() {
    let mut state = editor_with_curve(Point::new(0, 0), Point::new(30, 0));
    state.pointer_down(Point::new(0, 100));
    state.pointer_down(Point::new(30, 100));
    let first = state.curves()[0];
    state.pointer_down(Point::new(30, 100));
    assert_eq!(state.drag_state(), Some(DragState::new(1, PointHandle::D)));
    state.pointer_move(Point::new(40, 120));
    assert_eq!(state.curves()[0], first);
    assert_eq!(state.curves()[1].d, Point::new(40, 120));
    assert_eq!(state.curves()[1].a, Point::new(0, 100));
}

#[test]
fn release_ends_the_drag() {
    let mut state = editor_with_curve(Point::new(0, 0), Point::new(300, 300));
    state.pointer_down(Point::new(0, 0));
    state.pointer_move(Point::new(5, 5));
    state.pointer_up();
    assert_eq!(state.drag_state(), None);
    assert_eq!(state.curves()[0].a, Point::new(5, 5));
    assert_eq!(state.mouse(), Point::new(5, 5));

    let redraw = state.pointer_move(Point::new(50, 50));
    assert!(!redraw);
    assert_eq!(state.curves()[0].a, Point::new(5, 5));
}

#[test]
fn release_without_a_drag_changes_nothing() {
    let mut state = State::new();
    state.pointer_up();
    assert_eq!(state, State::new());

    let mut state = editor_with_curve(Point::new(0, 0), Point::new(300, 300));
    state.pointer_down(Point::new(50, 0));
    let before = state.clone();
    state.pointer_up();
    assert_eq!(state, before);
    state.pointer_up();
    assert_eq!(state, before);
}

#[test]
fn release_twice_is_the_same_as_once() {
    let mut state = editor_with_curve(Point::new(0, 0), Point::new(300, 300));
    state.pointer_down(Point::new(300, 300));
    assert!(state.drag_state().is_some());
    state.pointer_up();
    let once = state.clone();
    state.pointer_up();
    assert_eq!(state, once);
    assert_eq!(state.drag_state(), None);
}

#[test]
fn release_keeps_the_pending_anchor() {
    let mut state = State::new();
    state.pointer_down(Point::new(10, 10));
    state.pointer_up();
    assert_eq!(state.new_curve(), Some(Point::new(10, 10)));
    assert!(!state.dispatch(PointerEvent::Up));
    assert_eq!(state.new_curve(), Some(Point::new(10, 10)));
}

#[test]
fn idle_move_changes_nothing() {
    let mut state = State::new();
    let redraw = state.pointer_move(Point::new(42, 42));
    assert!(!redraw);
    assert_eq!(state, State::new());

    let mut state = editor_with_curve(Point::new(0, 0), Point::new(300, 300));
    let before = state.clone();
    let mut redraws = 0;
    for step in 0..50 {
        if state.pointer_move(Point::new(step * 7, 300 - step)) {
            redraws += 1;
        }
        if state.dispatch(PointerEvent::Move(Point::new(step, step))) {
            redraws += 1;
        }
    }
    assert_eq!(redraws, 0);
    assert_eq!(state, before);
    assert_eq!(state.mouse(), Point::new(300, 300));
}

#[test]
fn move_with_a_pending_anchor_tracks_the_pointer() {
    let mut state = State::new();
    state.pointer_down(Point::new(10, 10));
    let redraw = state.pointer_move(Point::new(60, 70));
    assert!(redraw);
    assert_eq!(state.mouse(), Point::new(60, 70));
    assert_eq!(state.new_curve(), Some(Point::new(10, 10)));
    assert!(state.curves().is_empty());
}

#[test]
fn press_on_a_handle_keeps_the_pending_anchor() {
    let mut state = editor_with_curve(Point::new(0, 0), Point::new(300, 300));
    state.pointer_down(Point::new(50, 0));
    assert_eq!(state.new_curve(), Some(Point::new(50, 0)));

    let redraw = state.pointer_down(Point::new(300, 300));
    assert!(!redraw);
    assert_eq!(state.drag_state(), Some(DragState::new(0, PointHandle::D)));
    assert_eq!(state.new_curve(), Some(Point::new(50, 0)));
    assert_eq!(state.curves().len(), 1);

    let redraw = state.pointer_move(Point::new(310, 290));
    assert!(redraw);
    assert_eq!(state.curves()[0].d, Point::new(310, 290));
    assert_eq!(state.mouse(), Point::new(310, 290));

    state.pointer_up();
    assert_eq!(state.new_curve(), Some(Point::new(50, 0)));
    let redraw = state.pointer_down(Point::new(50, 90));
    assert!(redraw);
    assert_eq!(state.curves().len(), 2);
    assert_eq!(state.curves()[1], Curve::straight(Point::new(50, 0), Point::new(50, 90)));
    assert_eq!(state.new_curve(), None);
}

#[test]
fn press_without_release_keeps_the_drag_through_a_new_curve() {
    let mut state = editor_with_curve(Point::new(0, 0), Point::new(300, 300));
    state.pointer_down(Point::new(0, 0));
    state.pointer_down(Point::new(50, 0));
    assert_eq!(state.drag_state(), Some(DragState::new(0, PointHandle::A)));
    assert_eq!(state.new_curve(), Some(Point::new(50, 0)));
    state.pointer_down(Point::new(50, 60));
    assert_eq!(state.drag_state(), Some(DragState::new(0, PointHandle::A)));
    assert_eq!(state.curves().len(), 2);
    assert!(state.is_wf());
}

#[test]
fn earliest_curve_is_dragged_where_handles_overlap() {
    let mut state = editor_with_curve(Point::new(0, 0), Point::new(300, 0));
    state.pointer_down(Point::new(100, 100));
    state.pointer_down(Point::new(200, 200));
    state.pointer_down(Point::new(100, 100));
    assert_eq!(state.drag_state(), Some(DragState::new(1, PointHandle::A)));
    state.pointer_move(Point::new(1, 1));
    state.pointer_up();
    assert_eq!(state.curves()[1].a, Point::new(1, 1));

    state.pointer_down(Point::new(1, 0));
    assert_eq!(state.drag_state(), Some(DragState::new(0, PointHandle::A)));
    state.pointer_up();
    state.pointer_down(Point::new(1, 5));
    assert_eq!(state.drag_state(), Some(DragState::new(1, PointHandle::A)));
}

#[test]
fn dispatch_does_what_the_single_handlers_do() {
    let events = [
        PointerEvent::Down(Point::new(0, 0)),
        PointerEvent::Move(Point::new(10, 10)),
        PointerEvent::Down(Point::new(90, 30)),
        PointerEvent::Up,
        PointerEvent::Down(Point::new(31, 9)),
        PointerEvent::Move(Point::new(40, 40)),
        PointerEvent::Move(Point::new(45, 35)),
        PointerEvent::Up,
        PointerEvent::Move(Point::new(0, 0)),
        PointerEvent::Down(Point::new(500, 500)),
    ];
    let mut dispatched = State::new();
    let mut direct = State::new();
    for event in events {
        let redraw = dispatched.dispatch(event);
        let expected = match event {
            PointerEvent::Down(p) => direct.pointer_down(p),
            PointerEvent::Move(p) => direct.pointer_move(p),
            PointerEvent::Up => {
                direct.pointer_up();
                false
            }
        };
        assert_eq!(redraw, expected);
        assert_eq!(dispatched, direct);
        assert!(dispatched.is_wf());
    }
    assert_eq!(dispatched.curves().len(), 1);
    assert_eq!(dispatched.curves()[0].b, Point::new(44, 36));
    assert_eq!(dispatched.new_curve(), Some(Point::new(500, 500)));
}

#[test]
fn drag_at_the_end_of_the_coordinate_range_wraps() {
    let mut state = editor_with_curve(Point::new(i32::MAX, 0), Point::new(i32::MAX - 300, 0));
    state.pointer_down(Point::new(i32::MAX - 2, 0));
    assert_eq!(state.drag_state(), Some(DragState::new(0, PointHandle::A)));
    state.pointer_move(Point::new(i32::MAX, 0));
    assert_eq!(state.curves()[0].a, Point::new(i32::MIN + 1, 0));
}
