//! A page: the viewport transform, the background, an ordered stack of
//! layers, and the event dispatch that turns raw device-space pointer
//! events into user-space shape edits.  A modifier key arms a pan action
//! that re-interprets pointer motion as dragging the viewport.

use vstd::prelude::*;

use crate::context::{to_user_spec, DrawCmd, RenderContext, Transform, ZOOM_MAX, ZOOM_MIN};
use crate::events::{ButtonEvent, KeyEvent, MotionEvent, PAN_KEY};
use crate::geometry::{
    clamp_coord, clamp_coord_spec, point_in_range, rect_wf, size_wf, vector_in_range, Point,
    Rectangle, Size, Vector,
};
use crate::layer::{
    combine_extents, extents_fold_spec, motion_dispatch_spec, press_dispatch_spec, Layer,
};
use crate::line_arrow::rect_to_device_spec;
use crate::shape::Shape;
use crate::style::RgbColor;

verus! {

/// Device-space pointer coordinates the page accepts.
pub open spec fn device_coord_in_range(x: int) -> bool {
    -0x1000_0000 <= x <= 0x1000_0000
}

pub open spec fn motion_event_in_range(ev: MotionEvent) -> bool {
    device_coord_in_range(ev.x as int) && device_coord_in_range(ev.y as int)
}

pub open spec fn button_event_in_range(ev: ButtonEvent) -> bool {
    device_coord_in_range(ev.x as int) && device_coord_in_range(ev.y as int)
}

/// The draw commands one layer contributes.
pub open spec fn layer_cmds_spec(l: Layer) -> Seq<DrawCmd> {
    if l.visible {
        crate::line_arrow::children_cmds_spec(l.children@)
    } else {
        Seq::<DrawCmd>::empty()
    }
}

/// The draw commands of a stack of layers, bottom-up.
pub open spec fn layers_cmds_spec(q: Seq<Layer>) -> Seq<DrawCmd>
    decreases q.len(),
{
    if q.len() == 0 {
        Seq::<DrawCmd>::empty()
    } else {
        layers_cmds_spec(q.drop_last()) + layer_cmds_spec(q.last())
    }
}

/// The merge of the layers' extents, `None` when no layer contributes.
pub open spec fn layers_extents_spec(q: Seq<Layer>, t: Transform) -> Option<Rectangle>
    decreases q.len(),
{
    if q.len() == 0 {
        None
    } else {
        combine_extents(
            layers_extents_spec(q.drop_last(), t),
            extents_fold_spec(q.last().children@, t),
        )
    }
}

/// A layer after a dispatch step: its children are the given sequence,
/// everything else is carried over from `base`.
pub open spec fn layer_matches(l: Layer, base: Layer, q: Seq<Shape>) -> bool {
    l.children@ == q && l == (Layer { children: l.children, ..base })
}

/// The index of the topmost layer whose children consume a motion at
/// `pos`, or -1 when the event falls through the whole stack.
pub open spec fn topmost_motion_consumer(q: Seq<Layer>, held: bool, pos: Point) -> int
    decreases q.len(),
{
    if q.len() == 0 {
        -1
    } else if motion_dispatch_spec(q.last().children@, held, pos).1 {
        q.len() - 1
    } else {
        topmost_motion_consumer(q.drop_last(), held, pos)
    }
}

/// The index of the topmost layer whose children consume a press, or
/// -1 when no shape is hit.
pub open spec fn topmost_press_consumer(q: Seq<Layer>, button: u8, pos: Point) -> int
    decreases q.len(),
{
    if q.len() == 0 {
        -1
    } else if press_dispatch_spec(q.last().children@, button, pos, false).1 {
        q.len() - 1
    } else {
        topmost_press_consumer(q.drop_last(), button, pos)
    }
}


/// The full pointer-motion transition of a page: what `motion_notify`
/// does and reports for every input.
pub open spec fn page_motion_rel(p0: Page, p1: Page, ev: MotionEvent, r: bool) -> bool {
    &&& (p0.pan_armed ==> p1 == p0.pan_motion_spec(ev.x as int, ev.y as int) && r == true)
    &&& (!p0.pan_armed ==> {
        let pos = p0.user_pos_spec(ev.x as int, ev.y as int);
        let h = topmost_motion_consumer(p0.layers@, ev.primary_held, pos);
        &&& r == (h >= 0)
        &&& p1.layers@.len() == p0.layers@.len()
        &&& forall|j: int|
            0 <= j < p0.layers@.len() && j > h ==> layer_matches(
                p1.layers@[j],
                #[trigger] p0.layers@[j],
                motion_dispatch_spec(p0.layers@[j].children@, ev.primary_held, pos).0,
            )
        &&& forall|j: int| 0 <= j < h ==> p1.layers@[j] == #[trigger] p0.layers@[j]
        &&& h >= 0 ==> layer_matches(
            p1.layers@[h],
            p0.layers@[h],
            motion_dispatch_spec(p0.layers@[h].children@, ev.primary_held, pos).0,
        )
        &&& p1 == (Page { layers: p1.layers, ..p0 })
    })
}

/// The full button-press transition of a page.
pub open spec fn page_press_rel(p0: Page, p1: Page, ev: ButtonEvent, r: bool) -> bool {
    let pos = p0.user_pos_spec(ev.x as int, ev.y as int);
    let h = topmost_press_consumer(p0.layers@, ev.button, pos);
    &&& r == (h >= 0)
    &&& p1.layers@.len() == p0.layers@.len()
    &&& forall|j: int|
        0 <= j < p0.layers@.len() && j > h ==> layer_matches(
            p1.layers@[j],
            #[trigger] p0.layers@[j],
            press_dispatch_spec(p0.layers@[j].children@, ev.button, pos, false).0,
        )
    &&& forall|j: int| 0 <= j < h ==> p1.layers@[j] == #[trigger] p0.layers@[j]
    &&& h >= 0 ==> layer_matches(
        p1.layers@[h],
        p0.layers@[h],
        press_dispatch_spec(p0.layers@[h].children@, ev.button, pos, false).0,
    )
    &&& p1 == (Page { layers: p1.layers, ..p0 })
}

pub struct Page {
    pub size: Size,
    pub layers: Vec<Layer>,
    pub active_layer_index: usize,
    pub color: Option<RgbColor>,
    pub border: Option<RgbColor>,
    pub grid: Option<RgbColor>,
    pub name: String,
    pub translate: Vector,
    pub zoom_percent: u32,
    pub pan_armed: bool,
    pub pan_last: Option<Point>,
}

impl Page {
    /// The page invariant: at least one layer, a valid active index, a
    /// positive size within the scene, a well-formed transform, and
    /// well-formed layers.
    pub open spec fn wf(self) -> bool {
        &&& self.layers@.len() > 0
        &&& self.active_layer_index < self.layers@.len()
        &&& size_wf(self.size)
        &&& vector_in_range(self.translate)
        &&& ZOOM_MIN <= self.zoom_percent <= ZOOM_MAX
        &&& forall|i: int| 0 <= i < self.layers@.len() ==> (#[trigger] self.layers@[i]).wf()
        &&& match self.pan_last {
            None => true,
            Some(p) => device_coord_in_range(p.x as int) && device_coord_in_range(p.y as int),
        }
    }

    /// The viewport transform of the page.
    pub open spec fn transform_spec(self) -> Transform {
        Transform { translate: self.translate, zoom_percent: self.zoom_percent }
    }

    /// A fresh page: 800 by 600 units, one empty layer, a white
    /// background with a grey border, no grid, untranslated at natural
    /// zoom, with no pan pending.
    pub fn new() -> (r: Page)
        ensures
            r.size == (Size { width: 800, height: 600 }),
            r.layers@.len() == 1,
            r.layers@[0].children@.len() == 0,
            r.layers@[0].visible,
            !r.layers@[0].lock,
            r.active_layer_index == 0,
            r.color == Some(RgbColor { red: 255, green: 255, blue: 255 }),
            r.border == Some(RgbColor { red: 121, green: 121, blue: 121 }),
            r.grid == None::<RgbColor>,
            r.translate == (Vector { x: 0, y: 0 }),
            r.zoom_percent == 100,
            !r.pan_armed,
            r.pan_last == None::<Point>,
            r.wf(),
    {
        let mut layers: Vec<Layer> = Vec::new();
        layers.push(Layer::new());
        Page {
            size: Size { width: 800, height: 600 },
            layers,
            active_layer_index: 0,
            color: Some(RgbColor { red: 255, green: 255, blue: 255 }),
            border: Some(RgbColor { red: 121, green: 121, blue: 121 }),
            grid: None,
            name: String::new(),
            translate: Vector { x: 0, y: 0 },
            zoom_percent: 100,
            pan_armed: false,
            pan_last: None,
        }
    }

    pub fn get_size(&self) -> (r: &Size)
        ensures
            r == &self.size,
    {
        &self.size
    }

    pub fn get_mut_size(&mut self) -> (r: &mut Size)
        ensures
            *r == old(self).size,
            *final(self) == (Page { size: *final(r), ..*old(self) }),
    {
        &mut self.size
    }

    pub fn set_size(&mut self, size: Size)
        requires
            size_wf(size),
        ensures
            *final(self) == (Page { size, ..*old(self) }),
            old(self).wf() ==> final(self).wf(),
    {
        self.size = size;
    }

    pub fn get_layers(&self) -> (r: &Vec<Layer>)
        ensures
            r == &self.layers,
    {
        &self.layers
    }

    pub fn get_mut_layers(&mut self) -> (r: &mut Vec<Layer>)
        ensures
            *r == old(self).layers,
            *final(self) == (Page { layers: *final(r), ..*old(self) }),
    {
        &mut self.layers
    }

    pub fn set_layers(&mut self, layers: Vec<Layer>)
        ensures
            *final(self) == (Page { layers, ..*old(self) }),
    {
        self.layers = layers;
    }

    pub fn get_active_layer(&self) -> (r: &Layer)
        requires
            self.wf(),
        ensures
            r == &self.layers@[self.active_layer_index as int],
    {
        &self.layers[self.active_layer_index]
    }

    pub fn get_mut_active_layer(&mut self) -> (r: &mut Layer)
        requires
            old(self).wf(),
        ensures
            *r == old(self).layers@[old(self).active_layer_index as int],
            final(self).layers@ == old(self).layers@.update(
                old(self).active_layer_index as int,
                *final(r),
            ),
            *final(self) == (Page { layers: final(self).layers, ..*old(self) }),
    {
        let idx = self.active_layer_index;
        let layers = &mut self.layers;
        proof {
            assert(idx < layers@.len());
        }
        &mut layers[idx]
    }

    pub fn get_active_layer_index(&self) -> (r: usize)
        ensures
            r == self.active_layer_index,
    {
        self.active_layer_index
    }

    pub fn set_active_layer_index(&mut self, index: usize)
        ensures
            *final(self) == (Page { active_layer_index: index, ..*old(self) }),
    {
        self.active_layer_index = index;
    }

    /// Drop every unfinished shape on every layer; invoked when the
    /// user switches drawing tools mid-placement.
    pub fn remove_shapes_in_creating_mode(&mut self)
        requires
            old(self).wf(),
        ensures
            final(self).layers@.len() == old(self).layers@.len(),
            forall|i: int|
                0 <= i < old(self).layers@.len() ==> {
                    let l0 = #[trigger] old(self).layers@[i];
                    let l1 = final(self).layers@[i];
                    l1.children@ == l0.children@.filter(crate::layer::editing_pred()) && l1 == (
                    Layer { children: l1.children, ..l0 })
                },
            *final(self) == (Page { layers: final(self).layers, ..*old(self) }),
            final(self).wf(),
    {
        let ghost orig = self.layers@;
        let mut i: usize = 0;
        while i < self.layers.len()
            invariant
                forall|j: int| 0 <= j < orig.len() ==> (#[trigger] orig[j]).wf(),
                orig == old(self).layers@,
                0 <= i <= orig.len(),
                self.layers@.len() == orig.len(),
                forall|j: int| i <= j < orig.len() ==> self.layers@[j] == #[trigger] orig[j],
                forall|j: int|
                    0 <= j < i ==> {
                        let l0 = #[trigger] orig[j];
                        let l1 = self.layers@[j];
                        l1.children@ == l0.children@.filter(crate::layer::editing_pred())
                            && l1 == (Layer { children: l1.children, ..l0 }) && l1.wf()
                    },
                forall|j: int| 0 <= j < i ==> (#[trigger] self.layers@[j]).wf(),
                *self == (Page { layers: self.layers, ..*old(self) }),
            decreases self.layers@.len() - i,
        {
            let ghost l0 = self.layers@[i as int];
            let ghost before = self.layers@;
            proof {
                assert(l0 == orig[i as int]);
                assert(l0.wf());
            }
            let mut l = self.layers.remove(i);
            l.remove_shapes_in_creating_mode();
            self.layers.insert(i, l);
            proof {
                assert(self.layers@ =~= before.update(i as int, l));
            }
            i = i + 1;
        }
    }

    /// Clear the selection on every shape of every layer.
    pub fn unselect_all_shapes(&mut self)
        requires
            old(self).wf(),
        ensures
            final(self).layers@.len() == old(self).layers@.len(),
            forall|i: int|
                0 <= i < old(self).layers@.len() ==> {
                    let l0 = #[trigger] old(self).layers@[i];
                    let l1 = final(self).layers@[i];
                    l1.children@.len() == l0.children@.len() && (forall|k: int|
                        0 <= k < l0.children@.len() ==> l1.children@[k] == (
                        #[trigger] l0.children@[k]).with_selected(false)) && l1 == (Layer {
                        children: l1.children,
                        ..l0
                    })
                },
            *final(self) == (Page { layers: final(self).layers, ..*old(self) }),
            final(self).wf(),
    {
        let ghost orig = self.layers@;
        let mut i: usize = 0;
        while i < self.layers.len()
            invariant
                forall|j: int| 0 <= j < orig.len() ==> (#[trigger] orig[j]).wf(),
                orig == old(self).layers@,
                0 <= i <= orig.len(),
                self.layers@.len() == orig.len(),
                forall|j: int| i <= j < orig.len() ==> self.layers@[j] == #[trigger] orig[j],
                forall|j: int|
                    0 <= j < i ==> {
                        let l0 = #[trigger] orig[j];
                        let l1 = self.layers@[j];
                        l1.children@.len() == l0.children@.len() && (forall|k: int|
                            0 <= k < l0.children@.len() ==> l1.children@[k] == (
                            #[trigger] l0.children@[k]).with_selected(false)) && l1 == (Layer {
                            children: l1.children,
                            ..l0
                        }) && l1.wf()
                    },
                forall|j: int| 0 <= j < i ==> (#[trigger] self.layers@[j]).wf(),
                *self == (Page { layers: self.layers, ..*old(self) }),
            decreases self.layers@.len() - i,
        {
            let ghost l0 = self.layers@[i as int];
            let ghost before = self.layers@;
            proof {
                assert(l0 == orig[i as int]);
                assert(l0.wf());
            }
            let mut l = self.layers.remove(i);
            l.unselect_all_shapes();
            self.layers.insert(i, l);
            proof {
                assert(self.layers@ =~= before.update(i as int, l));
            }
            i = i + 1;
        }
    }

    pub fn get_color(&self) -> (r: &Option<RgbColor>)
        ensures
            r == &self.color,
    {
        &self.color
    }

    pub fn get_mut_color(&mut self) -> (r: &mut Option<RgbColor>)
        ensures
            *r == old(self).color,
            *final(self) == (Page { color: *final(r), ..*old(self) }),
    {
        &mut self.color
    }

    pub fn set_color(&mut self, color: Option<RgbColor>)
        ensures
            *final(self) == (Page { color, ..*old(self) }),
    {
        self.color = color;
    }

    pub fn get_border(&self) -> (r: &Option<RgbColor>)
        ensures
            r == &self.border,
    {
        &self.border
    }

    pub fn get_mut_border(&mut self) -> (r: &mut Option<RgbColor>)
        ensures
            *r == old(self).border,
            *final(self) == (Page { border: *final(r), ..*old(self) }),
    {
        &mut self.border
    }

    pub fn set_border(&mut self, border: Option<RgbColor>)
        ensures
            *final(self) == (Page { border, ..*old(self) }),
    {
        self.border = border;
    }

    pub fn get_grid(&self) -> (r: &Option<RgbColor>)
        ensures
            r == &self.grid,
    {
        &self.grid
    }

    pub fn get_mut_grid(&mut self) -> (r: &mut Option<RgbColor>)
        ensures
            *r == old(self).grid,
            *final(self) == (Page { grid: *final(r), ..*old(self) }),
    {
        &mut self.grid
    }

    pub fn set_grid(&mut self, grid: Option<RgbColor>)
        ensures
            *final(self) == (Page { grid, ..*old(self) }),
    {
        self.grid = grid;
    }

    pub fn get_name(&self) -> (r: &String)
        ensures
            r == &self.name,
    {
        &self.name
    }

    pub fn get_mut_name(&mut self) -> (r: &mut String)
        ensures
            *r == old(self).name,
            *final(self) == (Page { name: *final(r), ..*old(self) }),
    {
        &mut self.name
    }

    pub fn set_name(&mut self, name: String)
        ensures
            *final(self) == (Page { name, ..*old(self) }),
    {
        self.name = name;
    }

    pub fn get_translate(&self) -> (r: &Vector)
        ensures
            r == &self.translate,
    {
        &self.translate
    }

    pub fn get_mut_translate(&mut self) -> (r: &mut Vector)
        ensures
            *r == old(self).translate,
            *final(self) == (Page { translate: *final(r), ..*old(self) }),
    {
        &mut self.translate
    }

    pub fn set_translate(&mut self, translate: Vector)
        requires
            vector_in_range(translate),
        ensures
            *final(self) == (Page { translate, ..*old(self) }),
            old(self).wf() ==> final(self).wf(),
    {
        self.translate = translate;
    }

    pub fn get_zoom_level(&self) -> (r: u32)
        ensures
            r == self.zoom_percent,
    {
        self.zoom_percent
    }

    pub fn set_zoom_level(&mut self, zoom_percent: u32)
        requires
            ZOOM_MIN <= zoom_percent <= ZOOM_MAX,
        ensures
            *final(self) == (Page { zoom_percent, ..*old(self) }),
            old(self).wf() ==> final(self).wf(),
    {
        self.zoom_percent = zoom_percent;
    }

    /// The background rectangle in user space: the page size anchored
    /// at the origin.
    pub open spec fn page_bound_spec(self) -> Rectangle {
        Rectangle {
            min_x: 0,
            min_y: 0,
            max_x: self.size.width as i64,
            max_y: self.size.height as i64,
        }
    }

    pub fn page_bound(&self) -> (r: Rectangle)
        requires
            self.wf(),
        ensures
            r == self.page_bound_spec(),
            rect_wf(r),
    {
        Rectangle {
            min_x: 0,
            min_y: 0,
            max_x: self.size.width as i64,
            max_y: self.size.height as i64,
        }
    }
}


impl Page {
    /// The user-space position of a device-space pointer coordinate,
    /// clamped into the scene.
    pub open spec fn user_pos_spec(self, x: int, y: int) -> Point {
        Point {
            x: clamp_coord_spec(to_user_spec(self.transform_spec(), x, self.translate.x as int))
                as i64,
            y: clamp_coord_spec(to_user_spec(self.transform_spec(), y, self.translate.y as int))
                as i64,
        }
    }

    /// One pan step: the first motion after arming only records the
    /// pointer, each further motion shifts the viewport by the pointer
    /// delta, clamped to the scene range.
    pub open spec fn pan_motion_spec(self, x: int, y: int) -> Page {
        let here = Point { x: x as i64, y: y as i64 };
        match self.pan_last {
            None => Page { pan_last: Some(here), ..self },
            Some(last) => Page {
                translate: Vector {
                    x: clamp_coord_spec(self.translate.x + x - last.x) as i64,
                    y: clamp_coord_spec(self.translate.y + y - last.y) as i64,
                },
                pan_last: Some(here),
                ..self
            },
        }
    }

    /// Pointer motion: while the pan action is armed the viewport
    /// follows the pointer; otherwise the position is mapped to user
    /// space and offered to the layers, topmost first.
    #[verifier::rlimit(100)]
    pub fn motion_notify(&mut self, event: &MotionEvent) -> (r: bool)
        requires
            old(self).wf(),
            motion_event_in_range(*event),
        ensures
            page_motion_rel(*old(self), *final(self), *event, r),
            final(self).wf(),
    {
        if self.pan_armed {
            let here = Point { x: event.x, y: event.y };
            match self.pan_last {
                None => {
                    self.pan_last = Some(here);
                },
                Some(last) => {
                    let tx = clamp_coord(self.translate.x + event.x - last.x);
                    let ty = clamp_coord(self.translate.y + event.y - last.y);
                    self.translate = Vector { x: tx, y: ty };
                    self.pan_last = Some(here);
                },
            }
            return true;
        }
        let t = Transform { translate: self.translate, zoom_percent: self.zoom_percent };
        let raw = t.device_to_user(Point { x: event.x, y: event.y });
        let pos = Point { x: clamp_coord(raw.x), y: clamp_coord(raw.y) };
        let ghost orig = self.layers@;
        let ghost held = event.primary_held;
        let mut i: usize = self.layers.len();
        proof {
            assert(orig.take(orig.len() as int) =~= orig);
        }
        while i > 0
            invariant
                old(self).wf(),
                !old(self).pan_armed,
                orig == old(self).layers@,
                forall|j: int| 0 <= j < orig.len() ==> (#[trigger] orig[j]).wf(),
                point_in_range(pos),
                pos == old(self).user_pos_spec(event.x as int, event.y as int),
                held == event.primary_held,
                0 <= i <= orig.len(),
                self.layers@.len() == orig.len(),
                self.layers@.take(i as int) =~= orig.take(i as int),
                forall|j: int| 0 <= j < self.layers@.len() ==> (#[trigger] self.layers@[j]).wf(),
                forall|j: int|
                    i <= j < orig.len() ==> layer_matches(
                        self.layers@[j],
                        #[trigger] orig[j],
                        motion_dispatch_spec(orig[j].children@, held, pos).0,
                    ),
                topmost_motion_consumer(orig, held, pos) == topmost_motion_consumer(
                    orig.take(i as int),
                    held,
                    pos,
                ),
                *self == (Page { layers: self.layers, ..*old(self) }),
            decreases i,
        {
            i = i - 1;
            let ghost prefix = orig.take(i + 1);
            let ghost before = self.layers@;
            proof {
                assert(prefix.drop_last() =~= orig.take(i as int));
                assert(prefix.last() == orig[i as int]);
                assert(before.take(i + 1) == orig.take(i + 1));
                assert(before[i as int] == before.take(i + 1)[i as int]);
                assert(orig[i as int] == orig.take(i + 1)[i as int]);
                assert(before[i as int] == orig[i as int]);
                assert(orig[i as int].wf());
            }
            let mut l = self.layers.remove(i);
            let consumed = l.motion_notify(event, &pos);
            self.layers.insert(i, l);
            proof {
                assert(self.layers@ =~= before.update(i as int, l));
                assert(layer_matches(
                    l,
                    orig[i as int],
                    motion_dispatch_spec(orig[i as int].children@, held, pos).0,
                ));
                assert(consumed == motion_dispatch_spec(orig[i as int].children@, held, pos).1);
            }
            if consumed {
                proof {
                    assert(topmost_motion_consumer(prefix, held, pos) == i as int);
                    assert(topmost_motion_consumer(orig, held, pos) == i as int);
                    assert forall|j: int| 0 <= j < i implies self.layers@[j]
                        == #[trigger] orig[j] by {
                        assert(self.layers@.take(i as int) =~= orig.take(i as int));
                        assert(self.layers@[j] == self.layers@.take(i as int)[j]);
                        assert(orig[j] == orig.take(i as int)[j]);
                    }
                }
                return true;
            }
            proof {
                assert(topmost_motion_consumer(prefix, held, pos) == topmost_motion_consumer(
                    orig.take(i as int),
                    held,
                    pos,
                ));
                assert(self.layers@.take(i as int) =~= orig.take(i as int));
            }
        }
        proof {
            assert(orig.take(0) =~= Seq::<Layer>::empty());
            assert(topmost_motion_consumer(orig, held, pos) == -1);
        }
        false
    }

    /// A button press: the position is mapped to user space and offered
    /// to the layers, topmost first; the first layer whose shapes
    /// consume it halts the dispatch.
    #[verifier::rlimit(100)]
    pub fn button_press(&mut self, event: &ButtonEvent) -> (r: bool)
        requires
            old(self).wf(),
            button_event_in_range(*event),
        ensures
            page_press_rel(*old(self), *final(self), *event, r),
            final(self).wf(),
    {
        let t = Transform { translate: self.translate, zoom_percent: self.zoom_percent };
        let raw = t.device_to_user(Point { x: event.x, y: event.y });
        let pos = Point { x: clamp_coord(raw.x), y: clamp_coord(raw.y) };
        let ghost orig = self.layers@;
        let ghost btn = event.button;
        let mut i: usize = self.layers.len();
        proof {
            assert(orig.take(orig.len() as int) =~= orig);
        }
        while i > 0
            invariant
                old(self).wf(),
                orig == old(self).layers@,
                forall|j: int| 0 <= j < orig.len() ==> (#[trigger] orig[j]).wf(),
                point_in_range(pos),
                pos == old(self).user_pos_spec(event.x as int, event.y as int),
                btn == event.button,
                0 <= i <= orig.len(),
                self.layers@.len() == orig.len(),
                self.layers@.take(i as int) =~= orig.take(i as int),
                forall|j: int| 0 <= j < self.layers@.len() ==> (#[trigger] self.layers@[j]).wf(),
                forall|j: int|
                    i <= j < orig.len() ==> layer_matches(
                        self.layers@[j],
                        #[trigger] orig[j],
                        press_dispatch_spec(orig[j].children@, btn, pos, false).0,
                    ),
                topmost_press_consumer(orig, btn, pos) == topmost_press_consumer(
                    orig.take(i as int),
                    btn,
                    pos,
                ),
                *self == (Page { layers: self.layers, ..*old(self) }),
            decreases i,
        {
            i = i - 1;
            let ghost prefix = orig.take(i + 1);
            let ghost before = self.layers@;
            proof {
                assert(prefix.drop_last() =~= orig.take(i as int));
                assert(prefix.last() == orig[i as int]);
                assert(before.take(i + 1) == orig.take(i + 1));
                assert(before[i as int] == before.take(i + 1)[i as int]);
                assert(orig[i as int] == orig.take(i + 1)[i as int]);
                assert(before[i as int] == orig[i as int]);
                assert(orig[i as int].wf());
            }
            let mut l = self.layers.remove(i);
            let consumed = l.button_press(event, &pos);
            self.layers.insert(i, l);
            proof {
                assert(self.layers@ =~= before.update(i as int, l));
                assert(layer_matches(
                    l,
                    orig[i as int],
                    press_dispatch_spec(orig[i as int].children@, btn, pos, false).0,
                ));
                assert(consumed == press_dispatch_spec(
                    orig[i as int].children@,
                    btn,
                    pos,
                    false,
                ).1);
            }
            if consumed {
                proof {
                    assert(topmost_press_consumer(prefix, btn, pos) == i as int);
                    assert(topmost_press_consumer(orig, btn, pos) == i as int);
                    assert forall|j: int| 0 <= j < i implies self.layers@[j]
                        == #[trigger] orig[j] by {
                        assert(self.layers@.take(i as int) =~= orig.take(i as int));
                        assert(self.layers@[j] == self.layers@.take(i as int)[j]);
                        assert(orig[j] == orig.take(i as int)[j]);
                    }
                }
                return true;
            }
            proof {
                assert(topmost_press_consumer(prefix, btn, pos) == topmost_press_consumer(
                    orig.take(i as int),
                    btn,
                    pos,
                ));
                assert(self.layers@.take(i as int) =~= orig.take(i as int));
            }
        }
        proof {
            assert(orig.take(0) =~= Seq::<Layer>::empty());
            assert(topmost_press_consumer(orig, btn, pos) == -1);
        }
        false
    }

    /// A button release changes nothing anywhere in the scene.
    pub fn button_release(&mut self, event: &ButtonEvent) -> (r: bool)
        requires
            old(self).wf(),
        ensures
            *final(self) == *old(self),
            r == false,
            final(self).wf(),
    {
        let _ = event;
        false
    }

    /// A key press arms the pan action on the pan modifier; every other
    /// key falls through (the layers never consume keys).
    pub fn key_press(&mut self, event: &KeyEvent) -> (r: bool)
        ensures
            event.key == PAN_KEY ==> *final(self) == (Page { pan_armed: true, ..*old(self) })
                && r == true,
            event.key != PAN_KEY ==> *final(self) == *old(self) && r == false,
    {
        if event.key == PAN_KEY {
            self.pan_armed = true;
            true
        } else {
            false
        }
    }

    /// Releasing the pan modifier disarms the pan action and forgets
    /// the recorded pointer position.
    pub fn key_release(&mut self, event: &KeyEvent) -> (r: bool)
        ensures
            event.key == PAN_KEY ==> *final(self) == (Page {
                pan_armed: false,
                pan_last: None,
                ..*old(self)
            }) && r == true,
            event.key != PAN_KEY ==> *final(self) == *old(self) && r == false,
    {
        if event.key == PAN_KEY {
            self.pan_armed = false;
            self.pan_last = None;
            true
        } else {
            false
        }
    }

    /// The commands one draw pass of the page records: the background
    /// rectangle with its border and fill, then every layer bottom-up.
    pub open spec fn page_cmds_spec(self) -> Seq<DrawCmd> {
        seq![
            DrawCmd::Save,
            DrawCmd::SetWidth(5),
            DrawCmd::RectPath(self.page_bound_spec()),
        ] + (match self.border {
            Some(b) => seq![DrawCmd::SetColor(b), DrawCmd::StrokePreserve],
            None => Seq::<DrawCmd>::empty(),
        }) + (match self.color {
            Some(c) => seq![DrawCmd::SetColor(c), DrawCmd::Fill],
            None => Seq::<DrawCmd>::empty(),
        }) + seq![DrawCmd::NewPath, DrawCmd::Restore] + layers_cmds_spec(self.layers@)
    }

    /// One draw pass: a fresh recording under the page transform,
    /// holding exactly [`Self::page_cmds_spec`].
    pub fn draw(&self) -> (ctx: RenderContext)
        requires
            self.wf(),
        ensures
            ctx.transform == self.transform_spec(),
            ctx.cmds@ == self.page_cmds_spec(),
    {
        let mut ctx = RenderContext::new(self.translate, self.zoom_percent);
        ctx.push(DrawCmd::Save);
        ctx.push(DrawCmd::SetWidth(5));
        ctx.push(DrawCmd::RectPath(self.page_bound()));
        match &self.border {
            Some(b) => {
                ctx.push(DrawCmd::SetColor(*b));
                ctx.push(DrawCmd::StrokePreserve);
            },
            None => {},
        }
        match &self.color {
            Some(c) => {
                ctx.push(DrawCmd::SetColor(*c));
                ctx.push(DrawCmd::Fill);
            },
            None => {},
        }
        ctx.push(DrawCmd::NewPath);
        ctx.push(DrawCmd::Restore);
        let ghost head = ctx.cmds@;
        let mut i: usize = 0;
        proof {
            assert(self.layers@.take(0) =~= Seq::<Layer>::empty());
            assert(head + layers_cmds_spec(self.layers@.take(0)) =~= head);
        }
        while i < self.layers.len()
            invariant
                self.wf(),
                0 <= i <= self.layers@.len(),
                ctx.cmds@ == head + layers_cmds_spec(self.layers@.take(i as int)),
                ctx.transform == self.transform_spec(),
            decreases self.layers@.len() - i,
        {
            proof {
                assert(self.layers@[i as int].wf());
            }
            let l = &self.layers[i];
            l.draw(&mut ctx);
            proof {
                let taken = self.layers@.take(i + 1);
                assert(taken.drop_last() =~= self.layers@.take(i as int));
                assert(taken.last() == self.layers@[i as int]);
                assert(ctx.cmds@ =~= head + layers_cmds_spec(taken));
            }
            i = i + 1;
        }
        proof {
            assert(self.layers@.take(self.layers@.len() as int) =~= self.layers@);
            assert(ctx.cmds@ =~= self.page_cmds_spec());
        }
        ctx
    }

    /// Whether a click at user-space `pos` lands on any shape of any
    /// visible layer.
    pub fn in_draw(&self, pos: &Point) -> (r: bool)
        requires
            self.wf(),
            point_in_range(*pos),
        ensures
            r == exists|i: int|
                0 <= i < self.layers@.len() && crate::layer::layer_in_draw_spec(
                    #[trigger] self.layers@[i],
                    *pos,
                ),
    {
        let mut i: usize = 0;
        while i < self.layers.len()
            invariant
                self.wf(),
                point_in_range(*pos),
                0 <= i <= self.layers@.len(),
                forall|j: int|
                    0 <= j < i ==> !crate::layer::layer_in_draw_spec(
                        #[trigger] self.layers@[j],
                        *pos,
                    ),
            decreases self.layers@.len() - i,
        {
            proof {
                assert(self.layers@[i as int].wf());
            }
            if self.layers[i].in_draw(pos) {
                return true;
            }
            i = i + 1;
        }
        false
    }

    /// The device-space extents of the page under its zoom alone: the
    /// background rectangle (fill and border stroke) merged with every
    /// layer's extents.
    pub open spec fn page_extents_spec(self) -> Rectangle {
        let t = Transform {
            translate: Vector { x: 0, y: 0 },
            zoom_percent: self.zoom_percent,
        };
        let fill = rect_to_device_spec(t, self.page_bound_spec());
        let stroke = rect_to_device_spec(
            t,
            Rectangle {
                min_x: (-3) as i64,
                min_y: (-3) as i64,
                max_x: (self.size.width + 3) as i64,
                max_y: (self.size.height + 3) as i64,
            },
        );
        let pb = crate::geometry::merged_spec(fill, stroke);
        match layers_extents_spec(self.layers@, t) {
            None => pb,
            Some(rest) => crate::geometry::merged_spec(rest, pb),
        }
    }

    /// The page always has an extent: at least its background.
    pub fn draw_extents(&self) -> (r: Option<Rectangle>)
        requires
            self.wf(),
        ensures
            r == Some(self.page_extents_spec()),
    {
        let t = Transform {
            translate: Vector { x: 0, y: 0 },
            zoom_percent: self.zoom_percent,
        };
        let bound = self.page_bound();
        let fill = t.user_to_device_rect(&bound);
        let stroke = t.user_to_device_rect(&bound.grown(3));
        let pb = fill.merged(stroke);
        let mut acc: Option<Rectangle> = None;
        let mut i: usize = 0;
        proof {
            assert(self.layers@.take(0) =~= Seq::<Layer>::empty());
        }
        while i < self.layers.len()
            invariant
                self.wf(),
                t == (Transform { translate: Vector { x: 0, y: 0 }, zoom_percent: self.zoom_percent }),
                0 <= i <= self.layers@.len(),
                acc == layers_extents_spec(self.layers@.take(i as int), t),
            decreases self.layers@.len() - i,
        {
            proof {
                assert(self.layers@[i as int].wf());
            }
            let ext = self.layers[i].draw_extents(&RenderContext {
                transform: t,
                cmds: Vec::new(),
            });
            acc = match (acc, ext) {
                (None, None) => None,
                (Some(x), None) => Some(x),
                (None, Some(y)) => Some(y),
                (Some(x), Some(y)) => Some(x.merged(y)),
            };
            proof {
                let taken = self.layers@.take(i + 1);
                assert(taken.drop_last() =~= self.layers@.take(i as int));
                assert(taken.last() == self.layers@[i as int]);
            }
            i = i + 1;
        }
        proof {
            assert(self.layers@.take(self.layers@.len() as int) =~= self.layers@);
        }
        match acc {
            None => Some(pb),
            Some(rest) => Some(rest.merged(pb)),
        }
    }
}

} // verus!
