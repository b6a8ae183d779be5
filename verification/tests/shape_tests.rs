//! Behaviour of the concrete shape: properties, transforms, hit testing
//! and the creation and editing state machines.

use teha::capability::{Flip, Rotate, Select};
use teha::events::{ButtonEvent, MotionEvent};
use teha::geometry::{Point, Segment, Vector};
use teha::line_arrow::{Actions, LineArrow, Mode};

fn seg(ax: i64, ay: i64, bx: i64, by: i64) -> Segment {
    Segment::new(Point::new(ax, ay), Point::new(bx, by))
}

/// A finished, visible, straight line-arrow in editing mode.
fn editing_line(ax: i64, ay: i64, bx: i64, by: i64) -> LineArrow {
    let mut la = LineArrow::new(seg(ax, ay, bx, by));
    la.set_mode(Mode::Editing);
    la.show();
    la
}

fn press(button: u8) -> ButtonEvent {
    ButtonEvent { x: 0, y: 0, button }
}

#[test]
fn lock_is_idempotent() {
    let mut la = editing_line(0, 0, 100, 0);
    la.lock();
    assert!(la.is_locked());
    la.lock();
    assert!(la.is_locked());
    la.unlock();
    assert!(!la.is_locked());
    la.unlock();
    assert!(!la.is_locked());
}

#[test]
fn show_is_idempotent() {
    let mut la = editing_line(0, 0, 100, 0);
    la.show();
    la.show();
    assert!(la.is_visible());
    la.conceal();
    la.conceal();
    assert!(!la.is_visible());
}

#[test]
fn select_is_idempotent() {
    let mut la = editing_line(0, 0, 100, 0);
    la.select();
    la.select();
    assert!(la.is_selected());
    la.unselect();
    la.unselect();
    assert!(!la.is_selected());
}

#[test]
fn toggles_restore_after_two_calls() {
    let mut la = editing_line(0, 0, 100, 0);
    let lock0 = la.is_locked();
    la.toggle_lock();
    la.toggle_lock();
    assert_eq!(la.is_locked(), lock0);
    let vis0 = la.is_visible();
    la.toggle_visible();
    la.toggle_visible();
    assert_eq!(la.is_visible(), vis0);
    let sel0 = la.is_selected();
    la.toggle_select();
    la.toggle_select();
    assert_eq!(la.is_selected(), sel0);
}

#[test]
fn translate_round_trip_restores_endpoints() {
    let mut la = editing_line(10, -20, 100, 50);
    la.go_dir = Vector::new(5, 7);
    la.arrive_dir = Vector::new(-3, 2);
    let v = Vector::new(37, -91);
    la.translate_by(&v);
    assert_eq!(la.segment.a, Point::new(47, -111));
    la.translate_by(&v.neg());
    assert_eq!(la.segment.a, Point::new(10, -20));
    assert_eq!(la.segment.b, Point::new(100, 50));
    assert_eq!(la.go_dir, Vector::new(5, 7));
    assert_eq!(la.arrive_dir, Vector::new(-3, 2));
}

#[test]
fn flip_vertical_swaps_y_and_mirrors_directions() {
    let mut la = editing_line(10, 20, 100, 80);
    la.go_dir = Vector::new(4, 9);
    la.arrive_dir = Vector::new(-6, -1);
    la.flip_vertical();
    assert_eq!(la.segment.a, Point::new(10, 80));
    assert_eq!(la.segment.b, Point::new(100, 20));
    assert_eq!(la.go_dir, Vector::new(4, -9));
    assert_eq!(la.arrive_dir, Vector::new(-6, 1));
}

#[test]
fn flip_vertical_is_an_involution() {
    let mut la = editing_line(10, 20, 100, 80);
    la.go_dir = Vector::new(4, 9);
    la.arrive_dir = Vector::new(-6, -1);
    la.flip_vertical();
    la.flip_vertical();
    assert_eq!(la.segment.a, Point::new(10, 20));
    assert_eq!(la.segment.b, Point::new(100, 80));
    assert_eq!(la.go_dir, Vector::new(4, 9));
    assert_eq!(la.arrive_dir, Vector::new(-6, -1));
}

#[test]
fn flip_horizontal_is_an_involution() {
    let mut la = editing_line(-5, 3, 40, -7);
    la.go_dir = Vector::new(1, 2);
    la.flip_horizontal();
    la.flip_horizontal();
    assert_eq!(la.segment.a, Point::new(-5, 3));
    assert_eq!(la.segment.b, Point::new(40, -7));
    assert_eq!(la.go_dir, Vector::new(1, 2));
}

#[test]
fn rotate_left_quarter_turn_about_center() {
    // Center of (0,0)-(10,0) is (5,0); a quarter turn counterclockwise
    // sends (0,0) to (5,-5)+... : relative offset (x,y) becomes (y,-x).
    let mut la = editing_line(0, 0, 10, 0);
    la.rotate_left();
    assert_eq!(la.segment.a, Point::new(5, 5));
    assert_eq!(la.segment.b, Point::new(5, -5));
}

#[test]
fn rotate_right_quarter_turn_about_center() {
    let mut la = editing_line(0, 0, 10, 0);
    la.rotate_right();
    assert_eq!(la.segment.a, Point::new(5, -5));
    assert_eq!(la.segment.b, Point::new(5, 5));
}

#[test]
fn position_is_floor_midpoint() {
    let la = editing_line(0, 0, 5, 5);
    assert_eq!(la.position(), Point::new(2, 2));
    let lb = editing_line(-1, -1, 0, 0);
    assert_eq!(lb.position(), Point::new(-1, -1));
}

#[test]
fn move_to_recenters_the_segment() {
    let mut la = editing_line(0, 0, 10, 0);
    la.move_to(&Point::new(100, 50));
    assert_eq!(la.segment.a, Point::new(95, 50));
    assert_eq!(la.segment.b, Point::new(105, 50));
}

#[test]
fn hit_priority_go_handle_beats_body() {
    // A selected, curve-like shape whose go-direction handle sits right
    // on the segment: the click resolves to the handle, not the body.
    let mut la = editing_line(0, 0, 100, 0);
    la.selected = true;
    la.curve_like = true;
    la.go_dir = Vector::new(50, 0);
    let hit = la.select_controller(&Point::new(50, 0));
    assert_eq!(hit, Some(Actions::MoveGoDirection));
}

#[test]
fn hit_priority_endpoint_handle_beats_body() {
    let mut la = editing_line(0, 0, 100, 0);
    la.selected = true;
    let hit = la.select_controller(&Point::new(0, 0));
    assert_eq!(hit, Some(Actions::MoveStartPoint));
    let hit_b = la.select_controller(&Point::new(100, 0));
    assert_eq!(hit_b, Some(Actions::MoveEndPoint));
}

#[test]
fn unselected_shape_offers_no_handles() {
    // Width 10 covers the endpoint click through the stroke, so the
    // very first click on an unselected shape can only arm a body move.
    let la = editing_line(0, 0, 100, 0);
    match la.select_controller(&Point::new(0, 0)) {
        Some(Actions::MoveBody(_, _)) => {},
        other => panic!("expected a body hit, got {:?}", other),
    }
}

#[test]
fn straight_body_hit_respects_half_width() {
    // Width 10 gives a half-width of 5 on each side of the spine.
    let la = editing_line(0, 0, 100, 0);
    assert!(la.in_draw(&Point::new(50, 5)));
    assert!(!la.in_draw(&Point::new(50, 7)));
}

#[test]
fn round_cap_extends_beyond_endpoint() {
    let la = editing_line(0, 0, 100, 0);
    assert!(la.in_draw(&Point::new(-4, 0)));
    assert!(!la.in_draw(&Point::new(-20, 0)));
}

#[test]
fn curved_body_hit_follows_the_flattened_curve() {
    // The cubic through control points (0,80) and (100,80) passes
    // through (50,60) at its middle; the straight spine at (50,0) is
    // far from the curve.
    let mut la = editing_line(0, 0, 100, 0);
    la.curve_like = true;
    la.go_dir = Vector::new(0, 80);
    la.arrive_dir = Vector::new(0, 80);
    assert!(la.in_draw(&Point::new(50, 60)));
    assert!(!la.in_draw(&Point::new(50, 20)));
}

#[test]
fn head_fill_is_hit_past_the_end_point() {
    // For the segment (0,0)->(0,100) with width 10 the head triangle
    // has its apex at (0,115) and base corners (-15,85) and (15,85).
    let la = editing_line(0, 0, 0, 100);
    assert!(la.in_draw(&Point::new(0, 110)));
    assert!(!la.in_draw(&Point::new(14, 112)));
}

#[test]
fn headless_shape_has_no_head_hit() {
    let mut la = editing_line(0, 0, 0, 100);
    la.have_head = false;
    assert!(!la.in_draw(&Point::new(0, 110)));
}

#[test]
fn creation_sequence_line_arrow() {
    // Instantiated pre-armed to place its start point, hidden; the
    // first click sets both endpoints and shows the shape, the second
    // finishes in editing mode, selected.
    let mut la = LineArrow::new(seg(10, 10, 10, 10));
    assert_eq!(la.get_mode(), Mode::CreatingLineArrow);
    assert_eq!(la.get_action(), Some(Actions::MoveStartPoint));
    assert!(!la.is_visible());

    let consumed = la.button_press(&press(1), &Point::new(0, 0));
    assert!(consumed);
    assert_eq!(la.segment.a, Point::new(0, 0));
    assert_eq!(la.segment.b, Point::new(0, 0));
    assert!(la.is_visible());
    assert_eq!(la.get_action(), Some(Actions::MoveEndPoint));

    let consumed2 = la.button_press(&press(1), &Point::new(100, 50));
    assert!(consumed2);
    assert_eq!(la.segment.a, Point::new(0, 0));
    assert_eq!(la.segment.b, Point::new(100, 50));
    assert_eq!(la.get_mode(), Mode::Editing);
    assert!(la.is_visible());
    assert!(la.is_selected());
    assert_eq!(la.get_action(), None);
}

#[test]
fn creation_sequence_curve_arrow_takes_four_clicks() {
    let mut la = LineArrow::new(seg(0, 0, 0, 0));
    la.set_mode(Mode::CreatingCurveArrow);
    assert!(la.get_curve_like());
    assert!(la.get_have_head());

    la.button_press(&press(1), &Point::new(0, 0));
    assert_eq!(la.get_action(), Some(Actions::MoveEndPoint));
    la.button_press(&press(1), &Point::new(100, 0));
    assert_eq!(la.get_action(), Some(Actions::MoveGoDirection));
    la.button_press(&press(1), &Point::new(20, 40));
    assert_eq!(la.get_action(), Some(Actions::MoveArriveDirection));
    assert_eq!(la.go_dir, Vector::new(20, 40));
    la.button_press(&press(1), &Point::new(80, 40));
    assert_eq!(la.get_mode(), Mode::Editing);
    assert_eq!(la.arrive_dir, Vector::new(-20, 40));
    assert!(la.is_selected());
}

#[test]
fn creation_motion_previews_end_point() {
    let mut la = LineArrow::new(seg(0, 0, 0, 0));
    la.button_press(&press(1), &Point::new(0, 0));
    let ev = MotionEvent { x: 0, y: 0, primary_held: false };
    let consumed = la.motion_notify(&ev, &Point::new(30, 40));
    assert!(consumed);
    assert_eq!(la.segment.b, Point::new(30, 40));
    assert_eq!(la.segment.a, Point::new(0, 0));
}

#[test]
fn locked_shape_ignores_events() {
    let mut la = editing_line(0, 0, 100, 0);
    la.lock();
    let consumed = la.button_press(&press(1), &Point::new(50, 0));
    assert!(!consumed);
    assert_eq!(la.get_action(), None);
}

#[test]
fn hidden_shape_ignores_editing_press() {
    let mut la = editing_line(0, 0, 100, 0);
    la.conceal();
    let consumed = la.button_press(&press(1), &Point::new(50, 0));
    assert!(!consumed);
}

#[test]
fn secondary_button_is_ignored() {
    let mut la = editing_line(0, 0, 100, 0);
    let consumed = la.button_press(&press(3), &Point::new(50, 0));
    assert!(!consumed);
}

#[test]
fn miss_unselects_and_disarms() {
    let mut la = editing_line(0, 0, 100, 0);
    la.selected = true;
    la.set_action(Some(Actions::MoveStartPoint));
    let consumed = la.button_press(&press(1), &Point::new(500, 500));
    assert!(!consumed);
    assert!(!la.is_selected());
    assert_eq!(la.get_action(), None);
}

#[test]
fn body_drag_preserves_grab_offsets() {
    let mut la = editing_line(0, 0, 100, 0);
    // Press on the body at (40, 2): offsets to the endpoints are kept
    // while the pointer moves with the primary button held.
    let consumed = la.button_press(&press(1), &Point::new(40, 2));
    assert!(consumed);
    let ev = MotionEvent { x: 0, y: 0, primary_held: true };
    la.motion_notify(&ev, &Point::new(60, 12));
    assert_eq!(la.segment.a, Point::new(20, 10));
    assert_eq!(la.segment.b, Point::new(120, 10));
}

#[test]
fn endpoint_drag_moves_one_endpoint() {
    let mut la = editing_line(0, 0, 100, 0);
    la.selected = true;
    la.button_press(&press(1), &Point::new(0, 0));
    let ev = MotionEvent { x: 0, y: 0, primary_held: true };
    la.motion_notify(&ev, &Point::new(-30, 25));
    assert_eq!(la.segment.a, Point::new(-30, 25));
    assert_eq!(la.segment.b, Point::new(100, 0));
}

#[test]
fn motion_without_button_does_nothing_in_editing() {
    let mut la = editing_line(0, 0, 100, 0);
    la.selected = true;
    la.button_press(&press(1), &Point::new(0, 0));
    let ev = MotionEvent { x: 0, y: 0, primary_held: false };
    let consumed = la.motion_notify(&ev, &Point::new(-30, 25));
    assert!(!consumed);
    assert_eq!(la.segment.a, Point::new(0, 0));
}

#[test]
fn release_keeps_the_armed_action() {
    let mut la = editing_line(0, 0, 100, 0);
    la.selected = true;
    la.button_press(&press(1), &Point::new(0, 0));
    let armed = la.get_action();
    let consumed = la.button_release(&press(1), &Point::new(0, 0));
    assert!(!consumed);
    assert_eq!(la.get_action(), armed);
}

#[test]
fn body_drag_clamps_to_scene_range() {
    let mut la = editing_line(16380, 0, 16384, 0);
    la.button_press(&press(1), &Point::new(16382, 0));
    let ev = MotionEvent { x: 0, y: 0, primary_held: true };
    la.motion_notify(&ev, &Point::new(16384, 0));
    assert_eq!(la.segment.b, Point::new(16384, 0));
    assert_eq!(la.segment.a, Point::new(16382, 0));
}

#[test]
fn mode_queries_match_mode() {
    let mut la = LineArrow::new(seg(0, 0, 0, 0));
    assert!(la.in_creating_mode());
    assert!(!la.in_editing_mode());
    la.set_mode(Mode::Editing);
    assert!(la.in_editing_mode());
    assert!(!la.in_creating_mode());
}

#[test]
fn style_accessors_round_trip() {
    let mut la = editing_line(0, 0, 100, 0);
    la.set_width(42);
    assert_eq!(la.get_width(), 42);
    la.set_offset(&7);
    assert_eq!(la.get_offset(), 7);
    la.set_dashes(&vec![4, 2]);
    assert_eq!(la.get_dashes(), vec![4, 2]);
    la.set_name(&String::from("arrow one"));
    assert_eq!(la.name(), String::from("arrow one"));
}
