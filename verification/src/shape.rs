//! The tagged shape catalog.  Every scene object a layer holds is a
//! `Shape`; the capability methods dispatch on the variant through a
//! single match, so new shape kinds become new variants.

use vstd::prelude::*;

use crate::capability::{Flip, Rotate, Select};
use crate::context::RenderContext;
use crate::events::{ButtonEvent, KeyEvent, MotionEvent};
use crate::geometry::{point_in_range, Point, Rectangle};
use crate::line_arrow::{Actions, LineArrow};
use crate::style::RgbaColor;

verus! {

pub enum Shape {
    LineArrow(LineArrow),
}

impl Shape {
    pub open spec fn wf(self) -> bool
        decreases self,
    {
        match self {
            Shape::LineArrow(la) => la.wf(),
        }
    }

    pub open spec fn selected_spec(self) -> bool {
        match self {
            Shape::LineArrow(la) => la.selected,
        }
    }

    pub open spec fn in_creating_spec(self) -> bool {
        match self {
            Shape::LineArrow(la) => la.in_creating_spec(),
        }
    }

    /// The shape with its selection flag replaced.
    pub open spec fn with_selected(self, sel: bool) -> Shape {
        match self {
            Shape::LineArrow(la) => Shape::LineArrow(LineArrow { selected: sel, ..la }),
        }
    }
}

impl Select for Shape {
    open spec fn sel_spec(&self) -> bool {
        self.selected_spec()
    }

    fn is_selected(&self) -> (r: bool)
        ensures
            r == self.selected_spec(),
    {
        match self {
            Shape::LineArrow(la) => la.selected,
        }
    }

    fn select(&mut self)
        ensures
            *final(self) == old(self).with_selected(true),
    {
        match self {
            Shape::LineArrow(la) => la.selected = true,
        }
    }

    fn unselect(&mut self)
        ensures
            *final(self) == old(self).with_selected(false),
    {
        match self {
            Shape::LineArrow(la) => la.selected = false,
        }
    }

    fn toggle_select(&mut self) -> (r: bool)
        ensures
            *final(self) == old(self).with_selected(!old(self).selected_spec()),
            r == final(self).selected_spec(),
    {
        let cur = self.is_selected();
        match self {
            Shape::LineArrow(la) => la.selected = !cur,
        }
        !cur
    }
}


impl Shape {
    /// One full draw pass of the shape.
    pub fn draw(&self, ctx: &mut crate::context::RenderContext)
        requires
            self.wf(),
        ensures
            final(ctx).transform == old(ctx).transform,
            final(ctx).cmds@ == old(ctx).cmds@ + crate::line_arrow::shape_cmds_spec(*self),
        decreases *self,
    {
        match self {
            Shape::LineArrow(la) => la.draw(ctx),
        }
    }
}


impl Shape {
    /// The payload of the (single-variant) catalog.
    pub open spec fn inner(self) -> LineArrow {
        match self {
            Shape::LineArrow(la) => la,
        }
    }

    pub fn in_creating_mode(&self) -> (r: bool)
        ensures
            r == self.in_creating_spec(),
    {
        match self {
            Shape::LineArrow(la) => la.in_creating_mode(),
        }
    }

    pub fn in_editing_mode(&self) -> (r: bool)
        ensures
            r == !self.in_creating_spec(),
    {
        match self {
            Shape::LineArrow(la) => la.in_editing_mode(),
        }
    }

    pub fn is_locked(&self) -> (r: bool)
        ensures
            r == self.inner().lock,
    {
        match self {
            Shape::LineArrow(la) => la.is_locked(),
        }
    }

    pub fn is_visible(&self) -> (r: bool)
        ensures
            r == self.inner().visible,
    {
        match self {
            Shape::LineArrow(la) => la.is_visible(),
        }
    }

    pub fn get_color(&self) -> (r: RgbaColor)
        ensures
            r == self.inner().color,
    {
        match self {
            Shape::LineArrow(la) => la.get_color(),
        }
    }

    pub fn name(&self) -> (r: String)
        ensures
            r == self.inner().name,
    {
        match self {
            Shape::LineArrow(la) => la.name(),
        }
    }

    /// Whether a click at user-space `pos` lands anywhere on the shape.
    pub fn in_draw(&self, pos: &Point) -> (r: bool)
        requires
            self.wf(),
            point_in_range(*pos),
        ensures
            r == (self.inner().select_controller_spec(*pos) != None::<Actions>),
    {
        match self {
            Shape::LineArrow(la) => la.in_draw(pos),
        }
    }

    /// The device-space extent of what the shape renders, if anything.
    pub fn draw_extents(&self, ctx: &RenderContext) -> (r: Option<Rectangle>)
        requires
            self.wf(),
            crate::context::transform_wf(ctx.transform),
        ensures
            !self.inner().visible ==> r == None::<Rectangle>,
            self.inner().visible ==> r == Some(
                crate::line_arrow::rect_to_device_spec(
                    ctx.transform,
                    self.inner().extents_user_spec(),
                ),
            ),
    {
        match self {
            Shape::LineArrow(la) => la.draw_extents(ctx),
        }
    }

    /// Forward one pointer motion to the shape's state machine.
    pub fn motion_notify(&mut self, event: &MotionEvent, pos: &Point) -> (r: bool)
        requires
            old(self).wf(),
            point_in_range(*pos),
        ensures
            *final(self) == Shape::LineArrow(
                old(self).inner().motion_spec(event.primary_held, *pos).0,
            ),
            r == old(self).inner().motion_spec(event.primary_held, *pos).1,
            final(self).wf(),
    {
        match self {
            Shape::LineArrow(la) => la.motion_notify(event, pos),
        }
    }

    /// Forward one button press to the shape's state machine.
    pub fn button_press(&mut self, event: &ButtonEvent, pos: &Point) -> (r: bool)
        requires
            old(self).wf(),
            point_in_range(*pos),
        ensures
            *final(self) == Shape::LineArrow(
                old(self).inner().button_press_spec(event.button, *pos).0,
            ),
            r == old(self).inner().button_press_spec(event.button, *pos).1,
            final(self).wf(),
    {
        match self {
            Shape::LineArrow(la) => la.button_press(event, pos),
        }
    }

    pub fn button_release(&mut self, event: &ButtonEvent, pos: &Point) -> (r: bool)
        ensures
            *final(self) == *old(self),
            r == false,
    {
        match self {
            Shape::LineArrow(la) => la.button_release(event, pos),
        }
    }

    pub fn key_press(&mut self, event: &KeyEvent) -> (r: bool)
        ensures
            *final(self) == *old(self),
            r == false,
    {
        match self {
            Shape::LineArrow(la) => la.key_press(event),
        }
    }

    pub fn key_release(&mut self, event: &KeyEvent) -> (r: bool)
        ensures
            *final(self) == *old(self),
            r == false,
    {
        match self {
            Shape::LineArrow(la) => la.key_release(event),
        }
    }
}

impl Flip for Shape {
    open spec fn flip_ok(&self) -> bool {
        self.wf()
    }

    fn flip_vertical(&mut self)
        ensures
            *final(self) == Shape::LineArrow(old(self).inner().flip_vertical_spec()),
            final(self).wf(),
    {
        match self {
            Shape::LineArrow(la) => la.flip_vertical(),
        }
    }

    fn flip_horizontal(&mut self)
        ensures
            *final(self) == Shape::LineArrow(old(self).inner().flip_horizontal_spec()),
            final(self).wf(),
    {
        match self {
            Shape::LineArrow(la) => la.flip_horizontal(),
        }
    }
}

impl Rotate for Shape {
    open spec fn rotate_left_allowed(&self) -> bool {
        self.wf() && self.inner().rotate_left_ok()
    }

    open spec fn rotate_right_allowed(&self) -> bool {
        self.wf() && self.inner().rotate_right_ok()
    }

    fn rotate_left(&mut self)
        ensures
            *final(self) == Shape::LineArrow(old(self).inner().rotate_left_spec()),
            final(self).wf(),
    {
        match self {
            Shape::LineArrow(la) => la.rotate_left(),
        }
    }

    fn rotate_right(&mut self)
        ensures
            *final(self) == Shape::LineArrow(old(self).inner().rotate_right_spec()),
            final(self).wf(),
    {
        match self {
            Shape::LineArrow(la) => la.rotate_right(),
        }
    }
}


impl Shape {
    /// Append a child shape.
    pub fn add(&mut self, child: Shape)
        ensures
            final(self).inner().children@ == old(self).inner().children@.push(child),
            *final(self) == Shape::LineArrow(
                LineArrow { children: final(self).inner().children, ..old(self).inner() },
            ),
    {
        match self {
            Shape::LineArrow(la) => la.add(child),
        }
    }

    /// Remove and return the child at `index`; `None` from the length
    /// upward.
    pub fn remove(&mut self, index: usize) -> (r: Option<Shape>)
        ensures
            index < old(self).inner().children@.len() ==> r == Some(
                old(self).inner().children@[index as int],
            ) && final(self).inner().children@ == old(self).inner().children@.remove(
                index as int,
            ),
            index >= old(self).inner().children@.len() ==> r == None::<Shape> && *final(self)
                == *old(self),
            *final(self) == Shape::LineArrow(
                LineArrow { children: final(self).inner().children, ..old(self).inner() },
            ),
    {
        match self {
            Shape::LineArrow(la) => la.remove(index),
        }
    }

    pub fn get_children(&self) -> (r: &Vec<Shape>)
        ensures
            r == &self.inner().children,
    {
        match self {
            Shape::LineArrow(la) => la.get_children(),
        }
    }

    pub fn set_children(&mut self, children: Vec<Shape>)
        ensures
            *final(self) == Shape::LineArrow(
                LineArrow { children, ..old(self).inner() },
            ),
    {
        match self {
            Shape::LineArrow(la) => la.set_children(children),
        }
    }
}

} // verus!
