//! Layer behaviour: the container with its boundary, z-order editing,
//! creation-mode cleanup, extents composition and event dispatch.

use teha::capability::{Order, Select};
use teha::context::RenderContext;
use teha::events::ButtonEvent;
use teha::geometry::{Point, Rectangle, Segment, Vector};
use teha::layer::Layer;
use teha::line_arrow::{LineArrow, Mode};
use teha::shape::Shape;

fn named_shape(name: &str, selected: bool) -> Shape {
    let mut la = LineArrow::new(Segment::new(Point::new(0, 0), Point::new(100, 0)));
    la.set_mode(Mode::Editing);
    la.show();
    la.set_name(&String::from(name));
    la.selected = selected;
    Shape::LineArrow(la)
}

fn shape_at(ax: i64, ay: i64, bx: i64, by: i64) -> Shape {
    let mut la = LineArrow::new(Segment::new(Point::new(ax, ay), Point::new(bx, by)));
    la.set_mode(Mode::Editing);
    la.show();
    Shape::LineArrow(la)
}

fn names(layer: &Layer) -> Vec<String> {
    let mut out = Vec::new();
    for s in layer.get_children().iter() {
        out.push(s.name());
    }
    out
}

fn layer_of(shapes: Vec<Shape>) -> Layer {
    let mut l = Layer::new();
    for s in shapes {
        l.add(s);
    }
    l
}

#[test]
fn remove_succeeds_at_last_index() {
    let mut l = layer_of(vec![
        named_shape("a", false),
        named_shape("b", false),
        named_shape("c", false),
    ]);
    let taken = l.remove(2);
    assert!(taken.is_some());
    assert_eq!(taken.unwrap().name(), String::from("c"));
    assert_eq!(l.get_children().len(), 2);
}

#[test]
fn remove_fails_at_length() {
    let mut l = layer_of(vec![named_shape("a", false), named_shape("b", false)]);
    let taken = l.remove(2);
    assert!(taken.is_none());
    assert_eq!(l.get_children().len(), 2);
    let far = l.remove(17);
    assert!(far.is_none());
}

#[test]
fn zorder_step_advances_a_selected_block_once() {
    // Block of two selected shapes at indices 1..3, an unselected shape
    // above them: one forward scan advances the block one place and
    // keeps its internal order.
    let mut l = layer_of(vec![
        named_shape("u0", false),
        named_shape("s1", true),
        named_shape("s2", true),
        named_shape("u3", false),
    ]);
    l.move_selected_children_forward();
    assert_eq!(names(&l), vec!["u0", "u3", "s1", "s2"]);
    // Now the block is topmost: another scan changes nothing.
    l.move_selected_children_forward();
    assert_eq!(names(&l), vec!["u0", "u3", "s1", "s2"]);
}

#[test]
fn zorder_step_backward() {
    let mut l = layer_of(vec![
        named_shape("u0", false),
        named_shape("s1", true),
        named_shape("u2", false),
    ]);
    l.move_selected_children_backward();
    assert_eq!(names(&l), vec!["s1", "u0", "u2"]);
}

#[test]
fn move_child_forward_swaps_and_respects_bounds() {
    let mut l = layer_of(vec![named_shape("a", false), named_shape("b", false)]);
    assert!(l.move_child_forward(0));
    assert_eq!(names(&l), vec!["b", "a"]);
    assert!(!l.move_child_forward(1));
    assert!(!l.move_child_forward(5));
}

#[test]
fn move_child_backward_swaps_and_respects_bounds() {
    let mut l = layer_of(vec![named_shape("a", false), named_shape("b", false)]);
    assert!(!l.move_child_backward(0));
    assert!(l.move_child_backward(1));
    assert_eq!(names(&l), vec!["b", "a"]);
}

#[test]
fn move_child_to_front_and_rear() {
    let mut l = layer_of(vec![
        named_shape("a", false),
        named_shape("b", false),
        named_shape("c", false),
    ]);
    assert!(l.move_child_to_front(0));
    assert_eq!(names(&l), vec!["b", "c", "a"]);
    assert!(l.move_child_to_rear(2));
    assert_eq!(names(&l), vec!["a", "b", "c"]);
    assert!(!l.move_child_to_front(2));
    assert!(!l.move_child_to_rear(0));
}

#[test]
fn selected_children_move_to_front_as_one_block() {
    let mut l = layer_of(vec![
        named_shape("s0", true),
        named_shape("u1", false),
        named_shape("s2", true),
        named_shape("u3", false),
    ]);
    l.move_selected_children_to_front();
    assert_eq!(names(&l), vec!["u1", "u3", "s0", "s2"]);
}

#[test]
fn selected_children_move_to_rear_as_one_block() {
    let mut l = layer_of(vec![
        named_shape("u0", false),
        named_shape("s1", true),
        named_shape("u2", false),
        named_shape("s3", true),
    ]);
    l.move_selected_children_to_rear();
    assert_eq!(names(&l), vec!["s1", "s3", "u0", "u2"]);
}

#[test]
fn cleanup_removes_only_creating_shapes() {
    let mut l = Layer::new();
    l.add(named_shape("done", false));
    l.add(Shape::LineArrow(LineArrow::new(Segment::new(
        Point::new(0, 0),
        Point::new(0, 0),
    ))));
    l.add(named_shape("kept", false));
    l.remove_shapes_in_creating_mode();
    assert_eq!(names(&l), vec!["done", "kept"]);
}

#[test]
fn unselect_all_clears_every_flag() {
    let mut l = layer_of(vec![named_shape("a", true), named_shape("b", true)]);
    l.unselect_all_shapes();
    for s in l.get_children().iter() {
        assert!(!s.is_selected());
    }
}

#[test]
fn extents_match_exact_rectangle() {
    // Segment (0,0)-(100,0), width 10: handle boxes reach 5 around the
    // endpoints, the stroke box is the segment grown by 5, and the head
    // triangle spans (85,-15)-(115,15); everything merged.
    let ctx = RenderContext::new(Vector::new(0, 0), 100);
    let sh = shape_at(0, 0, 100, 0);
    let ext = sh.draw_extents(&ctx);
    assert_eq!(
        ext,
        Some(Rectangle { min_x: -5, min_y: -15, max_x: 115, max_y: 15 })
    );
}

#[test]
fn extents_composition_merges_visible_children() {
    let ctx = RenderContext::new(Vector::new(0, 0), 100);
    let mut l = Layer::new();
    let s1 = shape_at(0, 0, 100, 0);
    let s2 = shape_at(0, 200, 100, 200);
    let e1 = s1.draw_extents(&ctx).unwrap();
    let e2 = s2.draw_extents(&ctx).unwrap();
    l.add(s1);
    l.add(s2);
    let merged = l.draw_extents(&ctx);
    assert_eq!(merged, Some(e1.merged(e2)));
}

#[test]
fn empty_layer_has_no_extent() {
    let ctx = RenderContext::new(Vector::new(0, 0), 100);
    let l = Layer::new();
    assert_eq!(l.draw_extents(&ctx), None);
}

#[test]
fn all_hidden_layer_has_no_extent() {
    let ctx = RenderContext::new(Vector::new(0, 0), 100);
    let mut l = Layer::new();
    let mut la = LineArrow::new(Segment::new(Point::new(0, 0), Point::new(100, 0)));
    la.set_mode(Mode::Editing);
    l.add(Shape::LineArrow(la));
    assert_eq!(l.draw_extents(&ctx), None);
}

#[test]
fn hidden_child_is_left_out_of_the_merge() {
    let ctx = RenderContext::new(Vector::new(0, 0), 100);
    let mut l = Layer::new();
    let visible = shape_at(0, 0, 100, 0);
    let expected = visible.draw_extents(&ctx);
    let mut hidden_la = LineArrow::new(Segment::new(Point::new(0, 500), Point::new(100, 500)));
    hidden_la.set_mode(Mode::Editing);
    l.add(visible);
    l.add(Shape::LineArrow(hidden_la));
    assert_eq!(l.draw_extents(&ctx), expected);
}

#[test]
fn extents_scale_with_zoom() {
    // At 200 percent the device extent doubles.
    let ctx = RenderContext::new(Vector::new(0, 0), 200);
    let sh = shape_at(0, 0, 100, 0);
    assert_eq!(
        sh.draw_extents(&ctx),
        Some(Rectangle { min_x: -10, min_y: -30, max_x: 230, max_y: 30 })
    );
}

#[test]
fn press_selects_topmost_hit_and_unselects_the_rest() {
    let mut l = layer_of(vec![
        named_shape("bottom", true),
        named_shape("top", false),
    ]);
    let ev = ButtonEvent { x: 0, y: 0, button: 1 };
    let consumed = l.button_press(&ev, &Point::new(50, 0));
    assert!(consumed);
    assert!(!l.get_children()[0].is_selected());
    assert!(l.get_children()[1].is_selected());
}

#[test]
fn press_on_empty_space_unselects_everything() {
    let mut l = layer_of(vec![named_shape("a", true)]);
    let ev = ButtonEvent { x: 0, y: 0, button: 1 };
    let consumed = l.button_press(&ev, &Point::new(5000, 5000));
    assert!(!consumed);
    assert!(!l.get_children()[0].is_selected());
}

#[test]
fn hidden_layer_draws_nothing() {
    let mut l = layer_of(vec![named_shape("a", false)]);
    l.conceal();
    let mut ctx = RenderContext::new(Vector::new(0, 0), 100);
    l.draw(&mut ctx);
    assert_eq!(ctx.cmds.len(), 0);
}

#[test]
fn visible_layer_draws_children() {
    let l = layer_of(vec![named_shape("a", false)]);
    let mut ctx = RenderContext::new(Vector::new(0, 0), 100);
    l.draw(&mut ctx);
    assert!(ctx.cmds.len() > 0);
}

#[test]
fn layer_in_draw_sees_children_of_visible_layer() {
    let mut l = layer_of(vec![named_shape("a", false)]);
    assert!(l.in_draw(&Point::new(50, 0)));
    assert!(!l.in_draw(&Point::new(5000, 5000)));
    l.conceal();
    assert!(!l.in_draw(&Point::new(50, 0)));
}

#[test]
fn layer_lock_and_visibility_toggles() {
    let mut l = Layer::new();
    l.lock();
    l.lock();
    assert!(l.is_locked());
    assert!(!l.toggle_lock());
    let v = l.is_visible();
    l.toggle_visible();
    l.toggle_visible();
    assert_eq!(l.is_visible(), v);
}
