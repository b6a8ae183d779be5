//! Page and document behaviour: the viewport transform, the pan action,
//! device-to-user dispatch and the draw recording.

use teha::capability::Select;
use teha::context::{DrawCmd, RenderContext, Transform};
use teha::document::Document;
use teha::events::{ButtonEvent, KeyEvent, MotionEvent, PAN_KEY};
use teha::geometry::{Point, Segment, Size, Vector};
use teha::line_arrow::{LineArrow, Mode};
use teha::page::Page;
use teha::shape::Shape;
use teha::style::RgbColor;

fn finished_shape(ax: i64, ay: i64, bx: i64, by: i64) -> Shape {
    let mut la = LineArrow::new(Segment::new(Point::new(ax, ay), Point::new(bx, by)));
    la.set_mode(Mode::Editing);
    la.show();
    Shape::LineArrow(la)
}

#[test]
fn transform_maps_user_to_device_and_back() {
    let t = Transform::new(Vector::new(10, 10), 200);
    let d = t.user_to_device(Point::new(5, -3));
    assert_eq!(d, Point::new(20, 4));
    let u = t.device_to_user(Point::new(20, 4));
    assert_eq!(u, Point::new(5, -3));
}

#[test]
fn device_to_user_rounds_toward_minus_infinity() {
    // (3 - 0) * 100 / 200 = 1.5 rounds down to 1; (-3) * 100 / 200
    // rounds down to -2, never toward zero.
    let t = Transform::new(Vector::new(0, 0), 200);
    assert_eq!(t.device_to_user(Point::new(3, -3)), Point::new(1, -2));
}

#[test]
fn page_starts_with_one_empty_layer() {
    let p = Page::new();
    assert_eq!(p.get_layers().len(), 1);
    assert_eq!(p.get_active_layer_index(), 0);
    assert_eq!(p.get_zoom_level(), 100);
    assert_eq!(*p.get_translate(), Vector::new(0, 0));
    assert_eq!(*p.get_color(), Some(RgbColor::new(255, 255, 255)));
}

#[test]
fn pan_key_arms_and_motion_drags_the_viewport() {
    let mut p = Page::new();
    assert!(p.key_press(&KeyEvent { key: PAN_KEY }));
    assert!(p.pan_armed);
    // First motion only records the pointer.
    assert!(p.motion_notify(&MotionEvent { x: 10, y: 10, primary_held: false }));
    assert_eq!(*p.get_translate(), Vector::new(0, 0));
    // The next motion drags the viewport by the pointer delta.
    assert!(p.motion_notify(&MotionEvent { x: 30, y: 25, primary_held: false }));
    assert_eq!(*p.get_translate(), Vector::new(20, 15));
    // Releasing the key disarms and forgets the pointer.
    assert!(p.key_release(&KeyEvent { key: PAN_KEY }));
    assert!(!p.pan_armed);
    assert_eq!(p.pan_last, None);
}

#[test]
fn other_keys_fall_through() {
    let mut p = Page::new();
    assert!(!p.key_press(&KeyEvent { key: 65 }));
    assert!(!p.pan_armed);
    assert!(!p.key_release(&KeyEvent { key: 65 }));
}

#[test]
fn press_reaches_the_shape_through_the_transform() {
    let mut p = Page::new();
    p.set_translate(Vector::new(100, 0));
    p.set_zoom_level(200);
    p.get_mut_active_layer().add(finished_shape(0, 0, 100, 0));
    // Device (200, 0) maps to user ((200 - 100) * 100 / 200, 0) = (50, 0),
    // the middle of the stroke.
    let consumed = p.button_press(&ButtonEvent { x: 200, y: 0, button: 1 });
    assert!(consumed);
    assert!(p.get_layers()[0].get_children()[0].is_selected());
}

#[test]
fn press_off_every_shape_is_not_consumed() {
    let mut p = Page::new();
    p.get_mut_active_layer().add(finished_shape(0, 0, 100, 0));
    let consumed = p.button_press(&ButtonEvent { x: 9000, y: 9000, button: 1 });
    assert!(!consumed);
    assert!(!p.get_layers()[0].get_children()[0].is_selected());
}

#[test]
fn topmost_layer_wins_the_dispatch() {
    let mut p = Page::new();
    p.get_mut_active_layer().add(finished_shape(0, 0, 100, 0));
    let mut top = teha::layer::Layer::new();
    top.add(finished_shape(0, 0, 100, 0));
    p.get_mut_layers().push(top);
    let consumed = p.button_press(&ButtonEvent { x: 50, y: 0, button: 1 });
    assert!(consumed);
    // The shape on the top layer took the press; the bottom one was
    // never selected.
    assert!(p.get_layers()[1].get_children()[0].is_selected());
    assert!(!p.get_layers()[0].get_children()[0].is_selected());
}

#[test]
fn page_draw_records_background_then_layers() {
    let mut p = Page::new();
    p.get_mut_active_layer().add(finished_shape(0, 0, 100, 0));
    let ctx = p.draw();
    assert_eq!(ctx.transform, Transform::new(Vector::new(0, 0), 100));
    assert_eq!(ctx.cmds[0], DrawCmd::Save);
    assert_eq!(ctx.cmds[1], DrawCmd::SetWidth(5));
    match ctx.cmds[2] {
        DrawCmd::RectPath(r) => {
            assert_eq!((r.min_x, r.min_y, r.max_x, r.max_y), (0, 0, 800, 600));
        },
        other => panic!("expected the page rectangle, got {:?}", other),
    }
    // The stroke and fill of the background come before the shape body.
    assert!(ctx.cmds.iter().any(|c| *c == DrawCmd::StrokePreserve));
    assert!(ctx.cmds.iter().any(|c| *c == DrawCmd::Fill));
    assert!(ctx.cmds.iter().any(|c| *c == DrawCmd::Stroke));
}

#[test]
fn page_extents_cover_background_and_shapes() {
    let mut p = Page::new();
    // Empty page: the extent is the background with its border stroke,
    // three units around the 800 by 600 rectangle.
    let empty = p.draw_extents().unwrap();
    assert_eq!((empty.min_x, empty.min_y, empty.max_x, empty.max_y), (-3, -3, 803, 603));
    // A shape beyond the page edge widens the extent.
    p.get_mut_active_layer().add(finished_shape(0, 900, 100, 900));
    let with_shape = p.draw_extents().unwrap();
    assert_eq!(with_shape.max_y, 915);
}

#[test]
fn page_in_draw_finds_shapes_across_layers() {
    let mut p = Page::new();
    p.get_mut_active_layer().add(finished_shape(0, 0, 100, 0));
    assert!(p.in_draw(&Point::new(50, 0)));
    assert!(!p.in_draw(&Point::new(5000, 5000)));
}

#[test]
fn cleanup_and_unselect_cross_layers() {
    let mut p = Page::new();
    p.get_mut_active_layer().add(finished_shape(0, 0, 100, 0));
    p.get_mut_active_layer().add(Shape::LineArrow(LineArrow::new(Segment::new(
        Point::new(0, 0),
        Point::new(0, 0),
    ))));
    p.remove_shapes_in_creating_mode();
    assert_eq!(p.get_layers()[0].get_children().len(), 1);

    let ev = ButtonEvent { x: 50, y: 0, button: 1 };
    assert!(p.button_press(&ev));
    assert!(p.get_layers()[0].get_children()[0].is_selected());
    p.unselect_all_shapes();
    assert!(!p.get_layers()[0].get_children()[0].is_selected());
}

#[test]
fn document_starts_on_its_first_page() {
    let d = Document::new(3, Size::new(800, 600), true);
    assert_eq!(d.get_pages().len(), 3);
    assert_eq!(d.get_active_page_index(), 0);
    assert!(d.get_transparent());
    assert_eq!(*d.get_active_page().get_size(), Size::new(800, 600));
}

#[test]
fn document_forwards_events_to_the_active_page() {
    let mut d = Document::new(2, Size::new(800, 600), false);
    d.get_mut_active_page().get_mut_active_layer().add(finished_shape(0, 0, 100, 0));
    assert!(d.button_press(&ButtonEvent { x: 50, y: 0, button: 1 }));
    assert!(d.key_press(&KeyEvent { key: PAN_KEY }));
    assert!(d.get_active_page().pan_armed);
    assert!(!d.get_pages()[1].pan_armed);
    assert!(d.key_release(&KeyEvent { key: PAN_KEY }));
    assert!(!d.get_active_page().pan_armed);
}

#[test]
fn document_draw_uses_the_active_page_transform() {
    let mut d = Document::new(1, Size::new(400, 300), false);
    d.get_mut_active_page().set_zoom_level(50);
    let ctx = d.draw();
    assert_eq!(ctx.transform.zoom_percent, 50);
}

#[test]
fn motion_drag_moves_the_shape_through_the_page() {
    let mut p = Page::new();
    p.get_mut_active_layer().add(finished_shape(0, 0, 100, 0));
    assert!(p.button_press(&ButtonEvent { x: 50, y: 0, button: 1 }));
    assert!(p.motion_notify(&MotionEvent { x: 70, y: 10, primary_held: true }));
    match &p.get_layers()[0].get_children()[0] {
        Shape::LineArrow(la) => {
            assert_eq!(la.segment.a, Point::new(20, 10));
            assert_eq!(la.segment.b, Point::new(120, 10));
        },
    }
}

#[test]
fn render_context_records_pushes_in_order() {
    let mut ctx = RenderContext::new(Vector::new(3, 4), 100);
    ctx.push(DrawCmd::Save);
    ctx.push(DrawCmd::Stroke);
    assert_eq!(ctx.cmds.len(), 2);
    assert_eq!(ctx.cmds[0], DrawCmd::Save);
    assert_eq!(ctx.cmds[1], DrawCmd::Stroke);
    assert_eq!(ctx.transform.translate, Vector::new(3, 4));
}

#[test]
fn filename_validation() {
    assert!(teha::filename::is_valid_filename("notes").is_ok());
    assert_eq!(
        teha::filename::is_valid_filename(""),
        Err(String::from("File name cannot be empty"))
    );
    let long = "x".repeat(64);
    assert_eq!(
        teha::filename::is_valid_filename(&long),
        Err(String::from("File name is longer than 63 letters"))
    );
    let just_fits = "x".repeat(63);
    assert!(teha::filename::is_valid_filename(&just_fits).is_ok());
    assert!(teha::filename::is_valid_filename("a/b").is_err());
    assert!(teha::filename::is_valid_size().is_ok());
}

#[test]
fn error_carries_messages_and_io_reports() {
    let e = teha::error::Error::from("no surface");
    assert!(!e.is_io());
    assert_eq!(e.message(), "no surface");
    let io = std::io::Error::new(std::io::ErrorKind::Other, "boom");
    let e2 = teha::error::Error::from(io);
    assert!(e2.is_io());
    assert_eq!(e2.message(), "input/output error");
}

#[test]
fn view_mode_labels() {
    assert_eq!(teha::viewmode::ViewMode::StartUp.label(), "StartUp");
    assert_eq!(teha::viewmode::ViewMode::Editing.label(), "Editing");
    assert_eq!(teha::viewmode::ViewMode::Preferences.label(), "Preferences");
}
