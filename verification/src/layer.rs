//! A layer: an ordered list of shapes with a name, a lock flag and a
//! visibility flag.  The list order is the z-order — index 0 paints
//! first, the last index paints on top and is offered events first.

use vstd::prelude::*;

use crate::capability::{Order, Select};
use crate::context::{transform_wf, RenderContext, Transform};
use crate::events::{ButtonEvent, KeyEvent, MotionEvent};
use crate::geometry::{merged_spec, point_in_range, Point, Rectangle};
use crate::line_arrow::{children_cmds_spec, rect_to_device_spec, LineArrow};
use crate::shape::Shape;
use crate::zorder;

verus! {

pub struct Layer {
    pub children: Vec<Shape>,
    pub name: String,
    pub lock: bool,
    pub visible: bool,
}

/// The shapes that survive the creation-mode cleanup.
pub open spec fn editing_pred() -> spec_fn(Shape) -> bool {
    |s: Shape| !s.in_creating_spec()
}

/// Merge of two optional extents: whichever exists, or their union.
pub open spec fn combine_extents(a: Option<Rectangle>, b: Option<Rectangle>) -> Option<
    Rectangle,
> {
    match (a, b) {
        (None, None) => None,
        (Some(x), None) => Some(x),
        (None, Some(y)) => Some(y),
        (Some(x), Some(y)) => Some(merged_spec(x, y)),
    }
}

/// The device-space extent one shape contributes: nothing if it is
/// hidden.
pub open spec fn shape_extent_spec(sh: Shape, t: Transform) -> Option<Rectangle> {
    if sh.inner().visible {
        Some(rect_to_device_spec(t, sh.inner().extents_user_spec()))
    } else {
        None
    }
}

/// The merge of all visible shapes' extents, `None` when no shape
/// contributes one.
pub open spec fn extents_fold_spec(q: Seq<Shape>, t: Transform) -> Option<Rectangle>
    decreases q.len(),
{
    if q.len() == 0 {
        None
    } else {
        combine_extents(extents_fold_spec(q.drop_last(), t), shape_extent_spec(q.last(), t))
    }
}

/// One shape's motion step, at the catalog level.
pub open spec fn shape_motion_step(sh: Shape, held: bool, pos: Point) -> (Shape, bool) {
    let (la, c) = sh.inner().motion_spec(held, pos);
    (Shape::LineArrow(la), c)
}

/// Motion dispatch over a child list: topmost first, stopping at the
/// first shape that consumes the event.
pub open spec fn motion_dispatch_spec(q: Seq<Shape>, held: bool, pos: Point) -> (
    Seq<Shape>,
    bool,
)
    decreases q.len(),
{
    if q.len() == 0 {
        (q, false)
    } else {
        let (s2, c) = shape_motion_step(q.last(), held, pos);
        if c {
            (q.drop_last().push(s2), true)
        } else {
            let (rest, c2) = motion_dispatch_spec(q.drop_last(), held, pos);
            (rest.push(s2), c2)
        }
    }
}

/// One shape's button-press step, at the catalog level.
pub open spec fn shape_press_step(sh: Shape, button: u8, pos: Point) -> (Shape, bool) {
    let (la, c) = sh.inner().button_press_spec(button, pos);
    (Shape::LineArrow(la), c)
}

/// Button-press dispatch over a child list: every shape sees the press,
/// topmost first; the first consumer is selected and every other shape
/// is unselected, so a click selects exactly the shape it lands on.
/// The second component tells whether some shape above (processed
/// before) already consumed the press.
pub open spec fn press_dispatch_spec(q: Seq<Shape>, button: u8, pos: Point, found: bool) -> (
    Seq<Shape>,
    bool,
)
    decreases q.len(),
{
    if q.len() == 0 {
        (q, found)
    } else {
        let (s2, c) = shape_press_step(q.last(), button, pos);
        if !found && c {
            let rest = press_dispatch_spec(q.drop_last(), button, pos, true);
            (rest.0.push(s2.with_selected(true)), true)
        } else {
            let rest = press_dispatch_spec(q.drop_last(), button, pos, found);
            (rest.0.push(s2.with_selected(false)), rest.1)
        }
    }
}

/// Once a press has found its consumer, the rest of the scan keeps
/// reporting it.
pub proof fn lemma_press_found_sticky(q: Seq<Shape>, button: u8, pos: Point)
    ensures
        press_dispatch_spec(q, button, pos, true).1 == true,
    decreases q.len(),
{
    if q.len() > 0 {
        lemma_press_found_sticky(q.drop_last(), button, pos);
    }
}

/// Whether a click at user-space `pos` lands on any child of a visible
/// layer.
pub open spec fn layer_in_draw_spec(l: Layer, pos: Point) -> bool {
    l.visible && exists|i: int|
        0 <= i < l.children@.len() && (#[trigger] l.children@[i]).inner().select_controller_spec(
            pos,
        ) != None::<crate::line_arrow::Actions>
}

impl Layer {
    /// Every child in coordinate range and consistently armed.
    pub open spec fn wf(self) -> bool {
        forall|i: int| 0 <= i < self.children@.len() ==> (#[trigger] self.children@[i]).wf()
    }

    /// A fresh, empty, visible, unlocked layer.
    pub fn new() -> (r: Layer)
        ensures
            r.children@.len() == 0,
            r.lock == false,
            r.visible == true,
            r.wf(),
    {
        Layer { children: Vec::new(), name: String::new(), lock: false, visible: true }
    }

    pub fn name(&self) -> (r: String)
        ensures
            r == self.name,
    {
        self.name.clone()
    }

    pub fn set_name(&mut self, name: &String)
        ensures
            *final(self) == (Layer { name: *name, ..*old(self) }),
    {
        self.name = name.clone();
    }

    pub fn is_locked(&self) -> (r: bool)
        ensures
            r == self.lock,
    {
        self.lock
    }

    /// Idempotent: locking a locked layer changes nothing.
    pub fn lock(&mut self)
        ensures
            *final(self) == (Layer { lock: true, ..*old(self) }),
    {
        if !self.lock {
            self.lock = true;
        }
    }

    pub fn unlock(&mut self)
        ensures
            *final(self) == (Layer { lock: false, ..*old(self) }),
    {
        if self.lock {
            self.lock = false;
        }
    }

    pub fn toggle_lock(&mut self) -> (r: bool)
        ensures
            *final(self) == (Layer { lock: !old(self).lock, ..*old(self) }),
            r == final(self).lock,
    {
        self.lock = !self.lock;
        self.lock
    }

    pub fn is_visible(&self) -> (r: bool)
        ensures
            r == self.visible,
    {
        self.visible
    }

    /// Idempotent: showing a visible layer changes nothing.
    pub fn show(&mut self)
        ensures
            *final(self) == (Layer { visible: true, ..*old(self) }),
    {
        if !self.visible {
            self.visible = true;
        }
    }

    /// Make the layer invisible; idempotent like `show`.
    pub fn conceal(&mut self)
        ensures
            *final(self) == (Layer { visible: false, ..*old(self) }),
    {
        if self.visible {
            self.visible = false;
        }
    }

    pub fn toggle_visible(&mut self) -> (r: bool)
        ensures
            *final(self) == (Layer { visible: !old(self).visible, ..*old(self) }),
            r == final(self).visible,
    {
        self.visible = !self.visible;
        self.visible
    }

    /// Append a shape on top of the stack.
    pub fn add(&mut self, child: Shape)
        ensures
            final(self).children@ == old(self).children@.push(child),
            *final(self) == (Layer { children: final(self).children, ..*old(self) }),
    {
        self.children.push(child);
    }

    /// Remove and return the shape at `index`.  Succeeds exactly for
    /// the indices of the list — in particular for `len - 1` — and
    /// returns `None` for every index from `len` upward.
    pub fn remove(&mut self, index: usize) -> (r: Option<Shape>)
        ensures
            index < old(self).children@.len() ==> r == Some(old(self).children@[index as int])
                && final(self).children@ == old(self).children@.remove(index as int),
            index >= old(self).children@.len() ==> r == None::<Shape> && *final(self) == *old(
                self,
            ),
            *final(self) == (Layer { children: final(self).children, ..*old(self) }),
    {
        if index >= self.children.len() {
            None
        } else {
            Some(self.children.remove(index))
        }
    }

    pub fn get_children(&self) -> (r: &Vec<Shape>)
        ensures
            r == &self.children,
    {
        &self.children
    }

    pub fn get_mut_children(&mut self) -> (r: &mut Vec<Shape>)
        ensures
            *r == old(self).children,
            *final(self) == (Layer { children: *final(r), ..*old(self) }),
    {
        &mut self.children
    }

    pub fn set_children(&mut self, children: Vec<Shape>)
        ensures
            *final(self) == (Layer { children, ..*old(self) }),
    {
        self.children = children;
    }

    /// Delete every shape still in a creation mode; invoked when the
    /// user switches tools with a placement unfinished.
    pub fn remove_shapes_in_creating_mode(&mut self)
        ensures
            final(self).children@ == old(self).children@.filter(editing_pred()),
            *final(self) == (Layer { children: final(self).children, ..*old(self) }),
            old(self).wf() ==> final(self).wf(),
    {
        let ghost orig = self.children@;
        let mut kept: Vec<Shape> = Vec::new();
        proof {
            broadcast use vstd::seq_lib::group_filter_ensures;

            assert(orig.take(0) =~= Seq::<Shape>::empty());
            assert(Seq::<Shape>::empty().filter(editing_pred()) =~= Seq::<Shape>::empty());
        }
        let ghost mut done: int = 0;
        while self.children.len() > 0
            invariant
                0 <= done <= orig.len(),
                self.children@ =~= orig.skip(done),
                kept@ =~= orig.take(done).filter(editing_pred()),
                *self == (Layer { children: self.children, ..*old(self) }),
            decreases self.children@.len(),
        {
            let s = self.children.remove(0);
            let still_creating = s.in_creating_mode();
            proof {
                assert(s == orig[done]);
                assert(orig.take(done + 1) =~= orig.take(done).push(orig[done]));
                Seq::lemma_filter_push(orig.take(done), orig[done], editing_pred());
            }
            if !still_creating {
                kept.push(s);
            }
            proof {
                assert(self.children@ =~= orig.skip(done + 1));
                done = done + 1;
            }
        }
        proof {
            assert(orig.take(done) =~= orig);
        }
        self.children.append(&mut kept);
        proof {
            assert(self.children@ =~= orig.filter(editing_pred()));
            if old(self).wf() {
                assert forall|k: int| 0 <= k < self.children@.len() implies (
                #[trigger] self.children@[k]).wf() by {
                    let filtered = orig.filter(editing_pred());
                    let e = filtered[k];
                    assert(filtered.contains(e));
                    Seq::lemma_filter_contains_rev(orig, editing_pred(), e);
                    assert(orig.contains(e));
                    let w = choose|w: int| 0 <= w < orig.len() && orig[w] == e;
                    assert(orig[w].wf());
                }
            }
        }
    }

    /// Clear the selection flag on every child; invoked on a click that
    /// lands on empty canvas.
    pub fn unselect_all_shapes(&mut self)
        ensures
            final(self).children@.len() == old(self).children@.len(),
            forall|i: int|
                0 <= i < old(self).children@.len() ==> final(self).children@[i] == (
                #[trigger] old(self).children@[i]).with_selected(false),
            *final(self) == (Layer { children: final(self).children, ..*old(self) }),
            old(self).wf() ==> final(self).wf(),
    {
        let ghost orig = self.children@;
        let mut i: usize = 0;
        while i < self.children.len()
            invariant
                self.children@.len() == orig.len(),
                0 <= i <= orig.len(),
                forall|j: int|
                    i <= j < orig.len() ==> self.children@[j] == #[trigger] orig[j],
                forall|j: int|
                    0 <= j < i ==> self.children@[j] == (#[trigger] orig[j]).with_selected(
                        false,
                    ),
                *self == (Layer { children: self.children, ..*old(self) }),
            decreases self.children@.len() - i,
        {
            let mut sh = self.children.remove(i);
            sh.unselect();
            self.children.insert(i, sh);
            i = i + 1;
        }
        proof {
            if old(self).wf() {
                assert forall|k: int| 0 <= k < self.children@.len() implies (
                #[trigger] self.children@[k]).wf() by {
                    assert(self.children@[k] == orig[k].with_selected(false));
                    assert(orig[k].wf());
                }
            }
        }
    }

    /// Paint the layer: nothing when hidden, else every child bottom-up.
    pub fn draw(&self, ctx: &mut RenderContext)
        requires
            self.wf(),
        ensures
            final(ctx).transform == old(ctx).transform,
            !self.visible ==> final(ctx).cmds@ == old(ctx).cmds@,
            self.visible ==> final(ctx).cmds@ == old(ctx).cmds@ + children_cmds_spec(
                self.children@,
            ),
    {
        if !self.visible {
            return ;
        }
        let ghost start = ctx.cmds@;
        let mut i: usize = 0;
        while i < self.children.len()
            invariant
                self.wf(),
                0 <= i <= self.children@.len(),
                ctx.cmds@ == start + children_cmds_spec(self.children@.take(i as int)),
                ctx.transform == old(ctx).transform,
            decreases self.children@.len() - i,
        {
            proof {
                assert(self.children@[i as int].wf());
            }
            let child = &self.children[i];
            child.draw(ctx);
            proof {
                crate::line_arrow::lemma_children_cmds_snoc(
                    self.children@.take(i as int),
                    self.children@[i as int],
                );
                assert(self.children@.take(i + 1) =~= self.children@.take(i as int).push(
                    self.children@[i as int],
                ));
            }
            i = i + 1;
        }
        proof {
            assert(self.children@.take(self.children@.len() as int) =~= self.children@);
        }
    }

    /// Whether a click at user-space `pos` lands on any child of a
    /// visible layer.
    pub fn in_draw(&self, pos: &Point) -> (r: bool)
        requires
            self.wf(),
            point_in_range(*pos),
        ensures
            r == layer_in_draw_spec(*self, *pos),
    {
        if !self.visible {
            return false;
        }
        let mut i: usize = 0;
        while i < self.children.len()
            invariant
                self.wf(),
                self.visible,
                point_in_range(*pos),
                0 <= i <= self.children@.len(),
                forall|j: int|
                    0 <= j < i ==> (#[trigger] self.children@[j]).inner()
                        .select_controller_spec(*pos) == None::<crate::line_arrow::Actions>,
            decreases self.children@.len() - i,
        {
            proof {
                assert(self.children@[i as int].wf());
            }
            if self.children[i].in_draw(pos) {
                proof {
                    assert((#[trigger] self.children@[i as int]).inner()
                        .select_controller_spec(*pos) != None::<crate::line_arrow::Actions>);
                }
                return true;
            }
            i = i + 1;
        }
        false
    }

    /// The merge of all visible children's extents, in device space;
    /// nothing for an empty or all-hidden layer.
    pub fn draw_extents(&self, ctx: &RenderContext) -> (r: Option<Rectangle>)
        requires
            self.wf(),
            transform_wf(ctx.transform),
        ensures
            r == extents_fold_spec(self.children@, ctx.transform),
    {
        let mut acc: Option<Rectangle> = None;
        let mut i: usize = 0;
        proof {
            assert(self.children@.take(0) =~= Seq::<Shape>::empty());
        }
        while i < self.children.len()
            invariant
                self.wf(),
                transform_wf(ctx.transform),
                0 <= i <= self.children@.len(),
                acc == extents_fold_spec(self.children@.take(i as int), ctx.transform),
            decreases self.children@.len() - i,
        {
            proof {
                assert(self.children@[i as int].wf());
            }
            let ext = self.children[i].draw_extents(ctx);
            acc = match (acc, ext) {
                (None, None) => None,
                (Some(x), None) => Some(x),
                (None, Some(y)) => Some(y),
                (Some(x), Some(y)) => Some(x.merged(y)),
            };
            proof {
                let taken = self.children@.take(i + 1);
                assert(taken =~= self.children@.take(i as int).push(self.children@[i as int]));
                assert(taken.drop_last() =~= self.children@.take(i as int));
                assert(taken.last() == self.children@[i as int]);
            }
            i = i + 1;
        }
        proof {
            assert(self.children@.take(self.children@.len() as int) =~= self.children@);
        }
        acc
    }
    /// Offer a pointer motion to the children, topmost first, stopping
    /// at the first one that consumes it.
    #[verifier::rlimit(100)]
    pub fn motion_notify(&mut self, event: &MotionEvent, pos: &Point) -> (r: bool)
        requires
            old(self).wf(),
            point_in_range(*pos),
        ensures
            final(self).children@ == motion_dispatch_spec(
                old(self).children@,
                event.primary_held,
                *pos,
            ).0,
            r == motion_dispatch_spec(old(self).children@, event.primary_held, *pos).1,
            *final(self) == (Layer { children: final(self).children, ..*old(self) }),
            final(self).wf(),
    {
        let ghost orig = self.children@;
        let ghost held = event.primary_held;
        let mut i: usize = self.children.len();
        proof {
            assert(orig.take(orig.len() as int) =~= orig);
            assert(self.children@.skip(orig.len() as int) =~= Seq::<Shape>::empty());
            assert(motion_dispatch_spec(orig, held, *pos).0 + Seq::<Shape>::empty()
                =~= motion_dispatch_spec(orig, held, *pos).0);
        }
        while i > 0
            invariant
                orig == old(self).children@,
                forall|j: int| 0 <= j < orig.len() ==> (#[trigger] orig[j]).wf(),
                point_in_range(*pos),
                held == event.primary_held,
                0 <= i <= orig.len(),
                self.children@.len() == orig.len(),
                self.children@.take(i as int) =~= orig.take(i as int),
                forall|j: int| i <= j < orig.len() ==> (#[trigger] self.children@[j]).wf(),
                motion_dispatch_spec(orig, held, *pos).0 == motion_dispatch_spec(
                    orig.take(i as int),
                    held,
                    *pos,
                ).0 + self.children@.skip(i as int),
                motion_dispatch_spec(orig, held, *pos).1 == motion_dispatch_spec(
                    orig.take(i as int),
                    held,
                    *pos,
                ).1,
                *self == (Layer { children: self.children, ..*old(self) }),
            decreases i,
        {
            i = i - 1;
            let ghost prefix = orig.take(i + 1);
            let ghost before = self.children@;
            proof {
                assert(prefix.drop_last() =~= orig.take(i as int));
                assert(prefix.last() == orig[i as int]);
                assert(before.take(i + 1) == orig.take(i + 1));
                assert(before[i as int] == before.take(i + 1)[i as int]);
                assert(orig[i as int] == orig.take(i + 1)[i as int]);
                assert(before[i as int] == orig[i as int]);
                assert(orig[i as int].wf());
            }
            let mut sh = self.children.remove(i);
            let consumed = sh.motion_notify(event, pos);
            let ghost s2 = sh;
            self.children.insert(i, sh);
            proof {
                assert(s2 == shape_motion_step(orig[i as int], held, *pos).0);
                assert(consumed == shape_motion_step(orig[i as int], held, *pos).1);
                assert(self.children@ =~= before.update(i as int, s2));
                assert(self.children@.skip(i as int) =~= seq![s2] + before.skip(i + 1));
                assert(self.children@.take(i as int) =~= orig.take(i as int));
            }
            if consumed {
                proof {
                    assert(motion_dispatch_spec(prefix, held, *pos).0 == orig.take(
                        i as int,
                    ).push(s2));
                    assert(motion_dispatch_spec(prefix, held, *pos).1 == true);
                    assert(orig.take(i as int).push(s2) + before.skip(i + 1)
                        =~= orig.take(i as int) + (seq![s2] + before.skip(i + 1)));
                    assert(self.children@ =~= orig.take(i as int) + self.children@.skip(
                        i as int,
                    ));
                    assert(self.children@ =~= motion_dispatch_spec(prefix, held, *pos).0
                        + before.skip(i + 1));
                    assert(self.children@ == motion_dispatch_spec(orig, held, *pos).0);
                }
                return true;
            }
            proof {
                assert(motion_dispatch_spec(prefix, held, *pos).0 == motion_dispatch_spec(
                    orig.take(i as int),
                    held,
                    *pos,
                ).0.push(s2));
                assert(motion_dispatch_spec(prefix, held, *pos).1 == motion_dispatch_spec(
                    orig.take(i as int),
                    held,
                    *pos,
                ).1);
                assert(motion_dispatch_spec(orig.take(i as int), held, *pos).0.push(s2)
                    + before.skip(i + 1) =~= motion_dispatch_spec(
                    orig.take(i as int),
                    held,
                    *pos,
                ).0 + (seq![s2] + before.skip(i + 1)));
            }
        }
        proof {
            assert(orig.take(0) =~= Seq::<Shape>::empty());
            assert(self.children@.skip(0) =~= self.children@);
            assert(motion_dispatch_spec(orig.take(0), held, *pos).0 == Seq::<Shape>::empty());
            assert(Seq::<Shape>::empty() + self.children@ =~= self.children@);
        }
        false
    }

    /// Offer a button press to every child, topmost first; the first
    /// consumer becomes the selection, every other child is unselected.
    /// Consuming the press stops it from reaching lower layers.
    #[verifier::rlimit(100)]
    pub fn button_press(&mut self, event: &ButtonEvent, pos: &Point) -> (r: bool)
        requires
            old(self).wf(),
            point_in_range(*pos),
        ensures
            final(self).children@ == press_dispatch_spec(
                old(self).children@,
                event.button,
                *pos,
                false,
            ).0,
            r == press_dispatch_spec(old(self).children@, event.button, *pos, false).1,
            *final(self) == (Layer { children: final(self).children, ..*old(self) }),
            final(self).wf(),
    {
        let ghost orig = self.children@;
        let ghost btn = event.button;
        let mut found = false;
        let mut i: usize = self.children.len();
        proof {
            assert(orig.take(orig.len() as int) =~= orig);
            assert(self.children@.skip(orig.len() as int) =~= Seq::<Shape>::empty());
            assert(press_dispatch_spec(orig, btn, *pos, false).0 + Seq::<Shape>::empty()
                =~= press_dispatch_spec(orig, btn, *pos, false).0);
        }
        while i > 0
            invariant
                forall|j: int| 0 <= j < orig.len() ==> (#[trigger] orig[j]).wf(),
                point_in_range(*pos),
                btn == event.button,
                0 <= i <= orig.len(),
                self.children@.len() == orig.len(),
                self.children@.take(i as int) =~= orig.take(i as int),
                forall|j: int| i <= j < orig.len() ==> (#[trigger] self.children@[j]).wf(),
                press_dispatch_spec(orig, btn, *pos, false).0 == press_dispatch_spec(
                    orig.take(i as int),
                    btn,
                    *pos,
                    found,
                ).0 + self.children@.skip(i as int),
                press_dispatch_spec(orig, btn, *pos, false).1 == press_dispatch_spec(
                    orig.take(i as int),
                    btn,
                    *pos,
                    found,
                ).1,
                *self == (Layer { children: self.children, ..*old(self) }),
            decreases i,
        {
            i = i - 1;
            let ghost prefix = orig.take(i + 1);
            let ghost found0 = found;
            let ghost before = self.children@;
            proof {
                assert(prefix.drop_last() =~= orig.take(i as int));
                assert(prefix.last() == orig[i as int]);
                assert(before.take(i + 1) == orig.take(i + 1));
                assert(before[i as int] == before.take(i + 1)[i as int]);
                assert(orig[i as int] == orig.take(i + 1)[i as int]);
                assert(before[i as int] == orig[i as int]);
                assert(orig[i as int].wf());
            }
            let mut sh = self.children.remove(i);
            let consumed = sh.button_press(event, pos);
            let ghost s2 = sh;
            if consumed && !found {
                sh.select();
                found = true;
            } else {
                sh.unselect();
            }
            let ghost fin = sh;
            self.children.insert(i, sh);
            proof {
                assert(s2 == shape_press_step(orig[i as int], btn, *pos).0);
                assert(consumed == shape_press_step(orig[i as int], btn, *pos).1);
                assert(self.children@ =~= before.update(i as int, fin));
                assert(self.children@.skip(i as int) =~= seq![fin] + before.skip(i + 1));
                assert(self.children@.take(i as int) =~= orig.take(i as int));
                if consumed && !found0 {
                    lemma_press_found_sticky(orig.take(i as int), btn, *pos);
                    assert(fin == s2.with_selected(true));
                    assert(press_dispatch_spec(prefix, btn, *pos, found0).0
                        == press_dispatch_spec(orig.take(i as int), btn, *pos, true).0.push(
                        fin,
                    ));
                    assert(press_dispatch_spec(prefix, btn, *pos, found0).1 == true);
                } else {
                    assert(fin == s2.with_selected(false));
                    assert(press_dispatch_spec(prefix, btn, *pos, found0).0
                        == press_dispatch_spec(orig.take(i as int), btn, *pos, found0).0.push(
                        fin,
                    ));
                    assert(press_dispatch_spec(prefix, btn, *pos, found0).1
                        == press_dispatch_spec(orig.take(i as int), btn, *pos, found0).1);
                }
                assert(press_dispatch_spec(orig.take(i as int), btn, *pos, found).0.push(fin)
                    + before.skip(i + 1) =~= press_dispatch_spec(
                    orig.take(i as int),
                    btn,
                    *pos,
                    found,
                ).0 + (seq![fin] + before.skip(i + 1)));
            }
        }
        proof {
            assert(orig.take(0) =~= Seq::<Shape>::empty());
            assert(self.children@.skip(0) =~= self.children@);
            assert(press_dispatch_spec(orig.take(0), btn, *pos, found).0
                == Seq::<Shape>::empty());
            assert(Seq::<Shape>::empty() + self.children@ =~= self.children@);
        }
        found
    }

    /// A button release reaches every child but none reacts.
    pub fn button_release(&mut self, event: &ButtonEvent, pos: &Point) -> (r: bool)
        requires
            old(self).wf(),
        ensures
            final(self).children@ == old(self).children@,
            *final(self) == (Layer { children: final(self).children, ..*old(self) }),
            r == false,
            final(self).wf(),
    {
        let mut i: usize = self.children.len();
        while i > 0
            invariant
                0 <= i <= self.children@.len(),
                self.children@ =~= old(self).children@,
                *self == (Layer { children: self.children, ..*old(self) }),
            decreases i,
        {
            i = i - 1;
            let ghost before = self.children@;
            let mut sh = self.children.remove(i);
            let consumed = sh.button_release(event, pos);
            self.children.insert(i, sh);
            proof {
                assert(self.children@ =~= before);
            }
            if consumed {
                return true;
            }
        }
        false
    }


    /// Layers leave key events to the page.
    pub fn key_press(&mut self, event: &KeyEvent) -> (r: bool)
        ensures
            *final(self) == *old(self),
            r == false,
    {
        let _ = event;
        false
    }

    pub fn key_release(&mut self, event: &KeyEvent) -> (r: bool)
        ensures
            *final(self) == *old(self),
            r == false,
    {
        let _ = event;
        false
    }
}

impl Order for Layer {
    open spec fn order_children(&self) -> Seq<Shape> {
        self.children@
    }

    fn move_child_forward(&mut self, index: usize) -> (r: bool)
        ensures
            r == (index + 1 < old(self).children@.len()),
            r ==> final(self).children@ == zorder::swap_at(old(self).children@, index as int),
            !r ==> final(self).children@ == old(self).children@,
            *final(self) == (Layer { children: final(self).children, ..*old(self) }),
    {
        zorder::move_child_forward(&mut self.children, index)
    }

    fn move_child_backward(&mut self, index: usize) -> (r: bool)
        ensures
            r == (1 <= index && index < old(self).children@.len()),
            r ==> final(self).children@ == zorder::swap_at(old(self).children@, index - 1),
            !r ==> final(self).children@ == old(self).children@,
            *final(self) == (Layer { children: final(self).children, ..*old(self) }),
    {
        zorder::move_child_backward(&mut self.children, index)
    }

    fn move_child_to_front(&mut self, index: usize) -> (r: bool)
        ensures
            r == (index + 1 < old(self).children@.len()),
            r ==> final(self).children@ == old(self).children@.remove(index as int).push(
                old(self).children@[index as int],
            ),
            !r ==> final(self).children@ == old(self).children@,
            *final(self) == (Layer { children: final(self).children, ..*old(self) }),
    {
        zorder::move_child_to_front(&mut self.children, index)
    }

    fn move_child_to_rear(&mut self, index: usize) -> (r: bool)
        ensures
            r == (1 <= index && index < old(self).children@.len()),
            r ==> final(self).children@ == old(self).children@.remove(index as int).insert(
                0,
                old(self).children@[index as int],
            ),
            !r ==> final(self).children@ == old(self).children@,
            *final(self) == (Layer { children: final(self).children, ..*old(self) }),
    {
        zorder::move_child_to_rear(&mut self.children, index)
    }

    fn move_selected_children_forward(&mut self)
        ensures
            final(self).children@ == zorder::move_selected_forward_spec(old(self).children@),
            *final(self) == (Layer { children: final(self).children, ..*old(self) }),
    {
        proof {
            zorder::lemma_fwd_pass_len(
                old(self).children@,
                (old(self).children@.len() - 1) as nat,
            );
        }
        zorder::move_selected_children_forward(&mut self.children)
    }

    fn move_selected_children_backward(&mut self)
        ensures
            final(self).children@ == zorder::move_selected_backward_spec(old(self).children@),
            *final(self) == (Layer { children: final(self).children, ..*old(self) }),
    {
        proof {
            zorder::lemma_bwd_pass_len(old(self).children@, 1);
        }
        zorder::move_selected_children_backward(&mut self.children)
    }

    fn move_selected_children_to_front(&mut self)
        ensures
            final(self).children@ == old(self).children@.filter(zorder::unsel_pred())
                + old(self).children@.filter(zorder::sel_pred()),
            *final(self) == (Layer { children: final(self).children, ..*old(self) }),
    {
        proof {
            zorder::lemma_sel_partition_len(old(self).children@);
        }
        zorder::move_selected_children_to_front(&mut self.children)
    }

    fn move_selected_children_to_rear(&mut self)
        ensures
            final(self).children@ == old(self).children@.filter(zorder::sel_pred())
                + old(self).children@.filter(zorder::unsel_pred()),
            *final(self) == (Layer { children: final(self).children, ..*old(self) }),
    {
        proof {
            zorder::lemma_sel_partition_len(old(self).children@);
        }
        zorder::move_selected_children_to_rear(&mut self.children)
    }
}

/// Extents composition: a layer full of hidden shapes (or no shapes)
/// yields no extent, and one with a visible shape always yields one.
pub proof fn lemma_extents_visibility(q: Seq<Shape>, t: Transform)
    ensures
        (extents_fold_spec(q, t) != None::<Rectangle>) <==> exists|i: int|
            0 <= i < q.len() && (#[trigger] q[i]).inner().visible,
    decreases q.len(),
{
    if q.len() > 0 {
        lemma_extents_visibility(q.drop_last(), t);
        if q.last().inner().visible {
            assert(q[q.len() - 1].inner().visible);
        }
        if extents_fold_spec(q.drop_last(), t) != None::<Rectangle> {
            let i = choose|i: int|
                0 <= i < q.drop_last().len() && (#[trigger] q.drop_last()[i]).inner().visible;
            assert(q[i].inner().visible);
        }
        if exists|i: int| 0 <= i < q.len() && (#[trigger] q[i]).inner().visible {
            let i = choose|i: int| 0 <= i < q.len() && (#[trigger] q[i]).inner().visible;
            if i < q.len() - 1 {
                assert(q.drop_last()[i].inner().visible);
            }
        }
    }
}


/// Repeating `lock` or `show` on a layer has no further effect, and a
/// toggle undone by a second toggle restores the original layer.
pub proof fn lemma_layer_property_idempotence(l: Layer)
    ensures
        (Layer { lock: true, ..(Layer { lock: true, ..l }) }) == (Layer { lock: true, ..l }),
        (Layer { visible: true, ..(Layer { visible: true, ..l }) }) == (Layer {
            visible: true,
            ..l
        }),
        (Layer { lock: !(Layer { lock: !l.lock, ..l }).lock, ..(Layer { lock: !l.lock, ..l }) })
            == l,
        (Layer { visible: !(Layer { visible: !l.visible, ..l }).visible, ..(Layer {
            visible: !l.visible,
            ..l
        }) }) == l,
{
}

} // verus!
