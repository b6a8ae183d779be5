//! The concrete shape of the catalog: a straight or curved stroke between
//! two endpoints, an optional arrow head, round editing handles, and the
//! state machines that drive interactive creation and editing.

use vstd::prelude::*;

use crate::context::{transform_wf, DrawCmd, RenderContext, Transform};
use crate::events::{ButtonEvent, KeyEvent, MotionEvent, PRIMARY_BUTTON};
use crate::geometry::{
    circle_hit, circle_hit_spec, clamp_coord, clamp_coord_spec, coord_in_range,
    ext_coord_in_range, ext_point_in_range, floor_div, lemma_div_bounded, max_i64, merged_spec,
    mid_coord, min_i64, point_in_range, rect_wf, segment_hit, segment_hit_spec,
    segment_in_range, triangle_hit, triangle_hit_spec, vector_in_delta_range, Point, Rectangle,
    Segment, Vector,
};
use crate::capability::{Flip, Order, Rotate, Select};
use crate::shape::Shape;
use crate::style::{LineCap, LineJoin, RgbaColor, RgbColor};

verus! {

/// Which state machine currently drives the shape: finished shapes are in
/// `Editing`; a freshly instantiated shape runs one of the four multi-click
/// creation sequences until it reaches `Editing`.
#[derive(Clone, Copy, PartialEq, Eq, Structural, Debug)]
pub enum Mode {
    Editing,
    CreatingLineArrow,
    CreatingLine,
    CreatingCurveArrow,
    CreatingCurve,
}

/// The armed interactive action: what the next pointer motion mutates.
/// `MoveBody` remembers the offsets from the press position to the two
/// endpoints so a body drag preserves them.
#[derive(Clone, Copy, PartialEq, Eq, Structural, Debug)]
pub enum Actions {
    MoveBody(Vector, Vector),
    MoveStartPoint,
    MoveEndPoint,
    MoveGoDirection,
    MoveArriveDirection,
}

/// The widest stroke width a shape accepts, in document units.
pub const WIDTH_LIMIT: u32 = 256;

pub struct LineArrow {
    pub children: Vec<Shape>,
    pub name: String,
    pub lock: bool,
    pub selected: bool,
    pub action: Option<Actions>,
    pub mode: Mode,
    pub visible: bool,
    pub color: RgbaColor,
    pub width: u32,
    pub cap: LineCap,
    pub join: LineJoin,
    pub dashes: Vec<u32>,
    pub offset: u32,
    pub segment: Segment,
    pub curve_like: bool,
    pub have_head: bool,
    pub go_dir: Vector,
    pub arrive_dir: Vector,
}

/// The actions a creation sequence can be armed with; anything else in a
/// creating mode would be an unreachable transition.
pub open spec fn creation_action(a: Option<Actions>) -> bool {
    match a {
        Some(Actions::MoveStartPoint) => true,
        Some(Actions::MoveEndPoint) => true,
        Some(Actions::MoveGoDirection) => true,
        Some(Actions::MoveArriveDirection) => true,
        _ => false,
    }
}

pub open spec fn action_in_range(a: Option<Actions>) -> bool {
    match a {
        Some(Actions::MoveBody(va, vb)) => vector_in_delta_range(va) && vector_in_delta_range(vb),
        _ => true,
    }
}

impl LineArrow {
    /// Everything the methods rely on: geometry within coordinate range,
    /// the stroke width within its cap, and a creating-mode shape armed
    /// with one of the four creation actions.
    pub open spec fn wf(self) -> bool
        decreases self,
    {
        &&& segment_in_range(self.segment)
        &&& vector_in_delta_range(self.go_dir)
        &&& vector_in_delta_range(self.arrive_dir)
        &&& 1 <= self.width <= WIDTH_LIMIT
        &&& action_in_range(self.action)
        &&& (self.in_creating_spec() ==> creation_action(self.action))
        &&& forall|i: int| 0 <= i < self.children@.len() ==> (#[trigger] self.children@[i]).wf()
    }

    /// Whether the mode is one of the four creation modes.
    pub open spec fn in_creating_spec(self) -> bool {
        self.mode != Mode::Editing
    }

    /// What entering `mode` does besides storing it: a creation mode
    /// pre-arms the start point, selects the shape, fixes its kind
    /// flags and hides it until the first click; entering `Editing`
    /// disarms and unselects.
    pub open spec fn set_mode_spec(self, mode: Mode) -> LineArrow {
        match mode {
            Mode::Editing => LineArrow { action: None, selected: false, mode, ..self },
            Mode::CreatingLineArrow => LineArrow {
                action: Some(Actions::MoveStartPoint),
                selected: true,
                curve_like: false,
                have_head: true,
                visible: false,
                mode,
                ..self
            },
            Mode::CreatingLine => LineArrow {
                action: Some(Actions::MoveStartPoint),
                selected: true,
                curve_like: false,
                have_head: false,
                visible: false,
                mode,
                ..self
            },
            Mode::CreatingCurveArrow => LineArrow {
                action: Some(Actions::MoveStartPoint),
                selected: true,
                curve_like: true,
                have_head: true,
                visible: false,
                mode,
                ..self
            },
            Mode::CreatingCurve => LineArrow {
                action: Some(Actions::MoveStartPoint),
                selected: true,
                curve_like: true,
                have_head: false,
                visible: false,
                mode,
                ..self
            },
        }
    }

    /// A new shape between the endpoints of `segment`, pre-armed for the
    /// multi-click placement of a headed straight arrow: hidden, selected
    /// and waiting for the click that sets its start point.
    pub fn new(segment: Segment) -> (r: LineArrow)
        requires
            segment_in_range(segment),
        ensures
            r == (LineArrow {
                children: r.children,
                name: r.name,
                lock: false,
                selected: true,
                action: Some(Actions::MoveStartPoint),
                mode: Mode::CreatingLineArrow,
                visible: false,
                color: RgbaColor { color: RgbColor { red: 0, green: 0, blue: 0 }, alpha: 255 },
                width: 10,
                cap: LineCap::Round,
                join: LineJoin::Round,
                dashes: r.dashes,
                offset: 0,
                segment,
                curve_like: false,
                have_head: true,
                go_dir: Vector { x: 0, y: 0 },
                arrive_dir: Vector { x: 0, y: 0 },
            }),
            r.children@.len() == 0,
            r.name@.len() == 0,
            r.dashes@.len() == 0,
            r.wf(),
    {
        LineArrow {
            children: Vec::new(),
            name: String::new(),
            lock: false,
            selected: true,
            action: Some(Actions::MoveStartPoint),
            mode: Mode::CreatingLineArrow,
            visible: false,
            color: RgbaColor { color: RgbColor { red: 0, green: 0, blue: 0 }, alpha: 255 },
            width: 10,
            cap: LineCap::Round,
            join: LineJoin::Round,
            dashes: Vec::new(),
            offset: 0,
            segment,
            curve_like: false,
            have_head: true,
            go_dir: Vector { x: 0, y: 0 },
            arrive_dir: Vector { x: 0, y: 0 },
        }
    }

    pub fn get_mode(&self) -> (r: Mode)
        ensures
            r == self.mode,
    {
        self.mode
    }

    /// Enter `mode`, applying its side effects on action, selection,
    /// kind flags and visibility.
    pub fn set_mode(&mut self, mode: Mode)
        ensures
            *final(self) == old(self).set_mode_spec(mode),
            old(self).wf() ==> final(self).wf(),
    {
        match mode {
            Mode::Editing => {
                self.action = None;
                self.selected = false;
            },
            Mode::CreatingLineArrow => {
                self.action = Some(Actions::MoveStartPoint);
                self.selected = true;
                self.curve_like = false;
                self.have_head = true;
                self.visible = false;
            },
            Mode::CreatingLine => {
                self.action = Some(Actions::MoveStartPoint);
                self.selected = true;
                self.curve_like = false;
                self.have_head = false;
                self.visible = false;
            },
            Mode::CreatingCurveArrow => {
                self.action = Some(Actions::MoveStartPoint);
                self.selected = true;
                self.curve_like = true;
                self.have_head = true;
                self.visible = false;
            },
            Mode::CreatingCurve => {
                self.action = Some(Actions::MoveStartPoint);
                self.selected = true;
                self.curve_like = true;
                self.have_head = false;
                self.visible = false;
            },
        }
        self.mode = mode;
    }

    pub fn get_action(&self) -> (r: Option<Actions>)
        ensures
            r == self.action,
    {
        self.action
    }

    /// Arm `action`.  Keeping the shape well formed is up to the caller:
    /// a creating-mode shape must stay armed with a creation action.
    pub fn set_action(&mut self, action: Option<Actions>)
        requires
            action_in_range(action),
        ensures
            *final(self) == (LineArrow { action, ..*old(self) }),
    {
        self.action = action;
    }

    pub fn get_width(&self) -> (r: u32)
        ensures
            r == self.width,
    {
        self.width
    }

    pub fn set_width(&mut self, width: u32)
        requires
            1 <= width <= WIDTH_LIMIT,
        ensures
            *final(self) == (LineArrow { width, ..*old(self) }),
            old(self).wf() ==> final(self).wf(),
    {
        self.width = width;
    }

    pub fn get_cap(&self) -> (r: LineCap)
        ensures
            r == self.cap,
    {
        self.cap
    }

    pub fn set_cap(&mut self, cap: &LineCap)
        ensures
            *final(self) == (LineArrow { cap: *cap, ..*old(self) }),
    {
        self.cap = *cap;
    }

    pub fn get_join(&self) -> (r: LineJoin)
        ensures
            r == self.join,
    {
        self.join
    }

    pub fn set_join(&mut self, join: &LineJoin)
        ensures
            *final(self) == (LineArrow { join: *join, ..*old(self) }),
    {
        self.join = *join;
    }

    pub fn get_dashes(&self) -> (r: Vec<u32>)
        ensures
            r@ == self.dashes@,
    {
        clone_dashes(&self.dashes)
    }

    pub fn set_dashes(&mut self, dashes: &Vec<u32>)
        ensures
            final(self).dashes@ == dashes@,
            *final(self) == (LineArrow { dashes: final(self).dashes, ..*old(self) }),
    {
        self.dashes = clone_dashes(dashes);
    }

    pub fn get_offset(&self) -> (r: u32)
        ensures
            r == self.offset,
    {
        self.offset
    }

    pub fn set_offset(&mut self, offset: &u32)
        ensures
            *final(self) == (LineArrow { offset: *offset, ..*old(self) }),
    {
        self.offset = *offset;
    }

    pub fn get_curve_like(&self) -> (r: bool)
        ensures
            r == self.curve_like,
    {
        self.curve_like
    }

    pub fn set_curve_like(&mut self, curve_like: bool)
        ensures
            *final(self) == (LineArrow { curve_like, ..*old(self) }),
    {
        self.curve_like = curve_like;
    }

    pub fn get_have_head(&self) -> (r: bool)
        ensures
            r == self.have_head,
    {
        self.have_head
    }

    pub fn set_have_head(&mut self, have_head: bool)
        ensures
            *final(self) == (LineArrow { have_head, ..*old(self) }),
    {
        self.have_head = have_head;
    }

    pub fn get_color(&self) -> (r: RgbaColor)
        ensures
            r == self.color,
    {
        self.color
    }

    pub fn set_color(&mut self, color: &RgbaColor)
        ensures
            *final(self) == (LineArrow { color: *color, ..*old(self) }),
    {
        self.color = *color;
    }

    pub fn name(&self) -> (r: String)
        ensures
            r == self.name,
    {
        self.name.clone()
    }

    pub fn set_name(&mut self, name: &String)
        ensures
            *final(self) == (LineArrow { name: *name, ..*old(self) }),
    {
        self.name = name.clone();
    }

    pub fn is_locked(&self) -> (r: bool)
        ensures
            r == self.lock,
    {
        self.lock
    }

    /// Idempotent: locking a locked shape changes nothing.
    pub fn lock(&mut self)
        ensures
            *final(self) == (LineArrow { lock: true, ..*old(self) }),
    {
        if !self.lock {
            self.lock = true;
        }
    }

    pub fn unlock(&mut self)
        ensures
            *final(self) == (LineArrow { lock: false, ..*old(self) }),
    {
        if self.lock {
            self.lock = false;
        }
    }

    pub fn toggle_lock(&mut self) -> (r: bool)
        ensures
            *final(self) == (LineArrow { lock: !old(self).lock, ..*old(self) }),
            r == final(self).lock,
    {
        self.lock = !self.lock;
        self.lock
    }

    pub fn is_visible(&self) -> (r: bool)
        ensures
            r == self.visible,
    {
        self.visible
    }

    /// Idempotent: showing a visible shape changes nothing.
    pub fn show(&mut self)
        ensures
            *final(self) == (LineArrow { visible: true, ..*old(self) }),
    {
        if !self.visible {
            self.visible = true;
        }
    }

    /// Make the shape invisible; idempotent like `show`.
    pub fn conceal(&mut self)
        ensures
            *final(self) == (LineArrow { visible: false, ..*old(self) }),
    {
        if self.visible {
            self.visible = false;
        }
    }

    pub fn toggle_visible(&mut self) -> (r: bool)
        ensures
            *final(self) == (LineArrow { visible: !old(self).visible, ..*old(self) }),
            r == final(self).visible,
    {
        self.visible = !self.visible;
        self.visible
    }

    pub fn in_creating_mode(&self) -> (r: bool)
        ensures
            r == self.in_creating_spec(),
    {
        match self.mode {
            Mode::Editing => false,
            _ => true,
        }
    }

    pub fn in_editing_mode(&self) -> (r: bool)
        ensures
            r == !self.in_creating_spec(),
    {
        match self.mode {
            Mode::Editing => true,
            _ => false,
        }
    }
}

/// An owned copy of a dash pattern.
pub fn clone_dashes(dashes: &Vec<u32>) -> (r: Vec<u32>)
    ensures
        r@ == dashes@,
{
    let r = dashes.clone();
    proof {
        assert forall|i: int| 0 <= i < dashes@.len() implies r@[i] == dashes@[i] by {
            assert(cloned::<u32>(dashes@[i], r@[i]));
        }
        assert(r@ =~= dashes@);
    }
    r
}

/// Repeating `lock`, `show` or `select` has no further effect, and each
/// `toggle` undone by a second `toggle` restores the original shape.
pub proof fn lemma_property_idempotence(s: LineArrow)
    ensures
        (LineArrow { lock: true, ..(LineArrow { lock: true, ..s }) }) == (LineArrow {
            lock: true,
            ..s
        }),
        (LineArrow { visible: true, ..(LineArrow { visible: true, ..s }) }) == (LineArrow {
            visible: true,
            ..s
        }),
        (LineArrow { selected: true, ..(LineArrow { selected: true, ..s }) }) == (LineArrow {
            selected: true,
            ..s
        }),
        (LineArrow { lock: !(LineArrow { lock: !s.lock, ..s }).lock, ..(LineArrow {
            lock: !s.lock,
            ..s
        }) }) == s,
        (LineArrow { visible: !(LineArrow { visible: !s.visible, ..s }).visible, ..(LineArrow {
            visible: !s.visible,
            ..s
        }) }) == s,
        (LineArrow { selected: !(LineArrow { selected: !s.selected, ..s }).selected, ..(LineArrow {
            selected: !s.selected,
            ..s
        }) }) == s,
{
}


/// The Bézier weights of the flattening parameter `i / 8`: the four
/// cubic Bernstein coefficients scaled by 512.  They are non-negative
/// and sum to 512 for every `i` in `0 ..= 8`.
pub open spec fn curve_weights(i: int) -> (int, int, int, int) {
    if i <= 0 {
        (512, 0, 0, 0)
    } else if i == 1 {
        (343, 147, 21, 1)
    } else if i == 2 {
        (216, 216, 72, 8)
    } else if i == 3 {
        (125, 225, 135, 27)
    } else if i == 4 {
        (64, 192, 192, 64)
    } else if i == 5 {
        (27, 135, 225, 125)
    } else if i == 6 {
        (8, 72, 216, 216)
    } else if i == 7 {
        (1, 21, 147, 343)
    } else {
        (0, 0, 0, 512)
    }
}

impl LineArrow {
    /// Radius of the round editing handles, graded with the stroke
    /// width but kept clickable: 3 for thin strokes, up to 9 for wide
    /// ones, two fifths of the width in between.
    pub open spec fn radius_spec(self) -> int {
        if self.width < 10 {
            3
        } else if self.width > 20 {
            9
        } else {
            ((self.width * 2) / 5) as int
        }
    }

    /// The disk a click must land in to grab a handle: the handle circle
    /// plus half of its two-unit outline.
    pub open spec fn handle_radius_spec(self) -> int {
        self.radius_spec() + 1
    }

    /// Half the stroke width, rounded up: the reach of the body stroke
    /// on each side of its spine.
    pub open spec fn half_width_spec(self) -> int {
        ((self.width + 1) / 2) as int
    }

    /// The control point the go-direction handle sits on.
    pub open spec fn go_handle_spec(self) -> Point {
        Point {
            x: (self.segment.a.x + self.go_dir.x) as i64,
            y: (self.segment.a.y + self.go_dir.y) as i64,
        }
    }

    /// The control point the arrive-direction handle sits on.
    pub open spec fn arrive_handle_spec(self) -> Point {
        Point {
            x: (self.segment.b.x + self.arrive_dir.x) as i64,
            y: (self.segment.b.y + self.arrive_dir.y) as i64,
        }
    }

    /// The flattening of the rendered path: for a curve-like shape the
    /// cubic curve through the two control points, sampled at parameter
    /// `i / 8`; for a straight shape the two endpoints.
    pub open spec fn curve_point_spec(self, i: int) -> Point {
        let (w0, w1, w2, w3) = curve_weights(i);
        let c1 = self.go_handle_spec();
        let c2 = self.arrive_handle_spec();
        Point {
            x: ((w0 * self.segment.a.x + w1 * c1.x + w2 * c2.x + w3 * self.segment.b.x)
                / 512) as i64,
            y: ((w0 * self.segment.a.y + w1 * c1.y + w2 * c2.y + w3 * self.segment.b.y)
                / 512) as i64,
        }
    }

    /// Whether `pos` lies on the stroked body: within half a width of
    /// the straight segment, or of any chord of the flattened curve.
    pub open spec fn body_hit_spec(self, pos: Point) -> bool {
        if self.curve_like {
            exists|i: int|
                0 <= i < 8 && segment_hit_spec(
                    pos,
                    self.curve_point_spec(i),
                    #[trigger] self.curve_point_spec(i + 1),
                    self.half_width_spec(),
                )
        } else {
            segment_hit_spec(pos, self.segment.a, self.segment.b, self.half_width_spec())
        }
    }

    /// The direction the stroke arrives at the end point from, which
    /// orients the arrow head: the arrive control vector of a curve, or
    /// the direction back toward the start.
    pub open spec fn head_tangent_spec(self) -> Vector {
        let zero = Vector { x: 0, y: 0 };
        if self.curve_like {
            if self.arrive_dir != zero {
                self.arrive_dir
            } else if self.go_dir != zero {
                Vector {
                    x: (self.segment.a.x + self.go_dir.x - self.segment.b.x) as i64,
                    y: (self.segment.a.y + self.go_dir.y - self.segment.b.y) as i64,
                }
            } else {
                Vector {
                    x: (self.segment.a.x - self.segment.b.x) as i64,
                    y: (self.segment.a.y - self.segment.b.y) as i64,
                }
            }
        } else {
            Vector {
                x: (self.segment.a.x - self.segment.b.x) as i64,
                y: (self.segment.a.y - self.segment.b.y) as i64,
            }
        }
    }

    /// Half the span of the arrow head, one and a half stroke widths.
    pub open spec fn head_size_spec(self) -> int {
        self.width + (self.width / 2)
    }

    /// The arrow head: an isosceles triangle centered on the end point,
    /// its apex pointing away from where the stroke comes from.  The
    /// tangent is normalized by its larger component, so the head keeps
    /// its size within a factor of the diagonal.  `None` when the
    /// tangent vanishes (a degenerate shape draws no head).
    pub open spec fn head_triangle_spec(self) -> Option<(Point, Point, Point)> {
        let t = self.head_tangent_spec();
        if t == (Vector { x: 0, y: 0 }) {
            None
        } else {
            let m = max_i64(if t.x >= 0 { t.x } else { (-t.x) as i64 },
                if t.y >= 0 { t.y } else { (-t.y) as i64 });
            let s = self.head_size_spec();
            let dx = (-t.x * s) / (m as int);
            let dy = (-t.y * s) / (m as int);
            let b = self.segment.b;
            let apex = Point { x: (b.x + dx) as i64, y: (b.y + dy) as i64 };
            let c1 = Point { x: (b.x - dx - dy) as i64, y: (b.y - dy + dx) as i64 };
            let c2 = Point { x: (b.x - dx + dy) as i64, y: (b.y - dy - dx) as i64 };
            Some((apex, c1, c2))
        }
    }

    /// Whether `pos` lies inside the arrow head.
    pub open spec fn head_hit_spec(self, pos: Point) -> bool {
        match self.head_triangle_spec() {
            None => false,
            Some((p0, p1, p2)) => triangle_hit_spec(pos, p0, p1, p2),
        }
    }

    /// The controller hit test, in priority order; the offsets stored in
    /// `MoveBody` preserve the grab points of a body drag.
    pub open spec fn select_controller_spec(self, pos: Point) -> Option<Actions> {
        let va = Vector { x: (pos.x - self.segment.a.x) as i64, y: (pos.y - self.segment.a.y) as i64 };
        let vb = Vector { x: (pos.x - self.segment.b.x) as i64, y: (pos.y - self.segment.b.y) as i64 };
        if self.selected && self.curve_like && circle_hit_spec(
            pos,
            self.go_handle_spec(),
            self.handle_radius_spec(),
        ) {
            Some(Actions::MoveGoDirection)
        } else if self.selected && self.curve_like && circle_hit_spec(
            pos,
            self.arrive_handle_spec(),
            self.handle_radius_spec(),
        ) {
            Some(Actions::MoveArriveDirection)
        } else if self.selected && circle_hit_spec(pos, self.segment.a, self.handle_radius_spec()) {
            Some(Actions::MoveStartPoint)
        } else if self.selected && circle_hit_spec(pos, self.segment.b, self.handle_radius_spec()) {
            Some(Actions::MoveEndPoint)
        } else if self.body_hit_spec(pos) {
            Some(Actions::MoveBody(va, vb))
        } else if self.have_head && self.head_hit_spec(pos) {
            Some(Actions::MoveBody(va, vb))
        } else {
            None
        }
    }

    fn radius(&self) -> (r: i64)
        requires
            self.wf(),
        ensures
            r == self.radius_spec(),
            3 <= r <= 9,
    {
        if self.width < 10 {
            3
        } else if self.width > 20 {
            9
        } else {
            ((self.width * 2) / 5) as i64
        }
    }

    /// The go-direction control point, `start + go_dir`.
    fn go_handle(&self) -> (r: Point)
        requires
            self.wf(),
        ensures
            r == self.go_handle_spec(),
            ext_point_in_range(r),
    {
        Point { x: self.segment.a.x + self.go_dir.x, y: self.segment.a.y + self.go_dir.y }
    }

    /// The arrive-direction control point, `end + arrive_dir`.
    fn arrive_handle(&self) -> (r: Point)
        requires
            self.wf(),
        ensures
            r == self.arrive_handle_spec(),
            ext_point_in_range(r),
    {
        Point { x: self.segment.b.x + self.arrive_dir.x, y: self.segment.b.y + self.arrive_dir.y }
    }

    /// One sample of the flattened curve.
    fn curve_point(&self, i: usize) -> (r: Point)
        requires
            self.wf(),
            i <= 8,
        ensures
            r == self.curve_point_spec(i as int),
            ext_point_in_range(r),
    {
        let (w0, w1, w2, w3): (i64, i64, i64, i64) = if i == 0 {
            (512, 0, 0, 0)
        } else if i == 1 {
            (343, 147, 21, 1)
        } else if i == 2 {
            (216, 216, 72, 8)
        } else if i == 3 {
            (125, 225, 135, 27)
        } else if i == 4 {
            (64, 192, 192, 64)
        } else if i == 5 {
            (27, 135, 225, 125)
        } else if i == 6 {
            (8, 72, 216, 216)
        } else if i == 7 {
            (1, 21, 147, 343)
        } else {
            (0, 0, 0, 512)
        };
        let c1 = self.go_handle();
        let c2 = self.arrive_handle();
        proof {
            assert(-0xC000 <= c1.x <= 0xC000 && -0xC000 <= c1.y <= 0xC000
                && -0xC000 <= c2.x <= 0xC000 && -0xC000 <= c2.y <= 0xC000);
            lemma_weighted_sum_bounded(
                w0 as int, w1 as int, w2 as int, w3 as int,
                self.segment.a.x as int, c1.x as int, c2.x as int, self.segment.b.x as int,
            );
            lemma_weighted_sum_bounded(
                w0 as int, w1 as int, w2 as int, w3 as int,
                self.segment.a.y as int, c1.y as int, c2.y as int, self.segment.b.y as int,
            );
        }
        let sx: i64 = w0 * self.segment.a.x + w1 * c1.x + w2 * c2.x + w3 * self.segment.b.x;
        let sy: i64 = w0 * self.segment.a.y + w1 * c1.y + w2 * c2.y + w3 * self.segment.b.y;
        let px = floor_div(sx, 512);
        let py = floor_div(sy, 512);
        proof {
            lemma_div_bounded(sx as int, 512, 0xC000);
            lemma_div_bounded(sy as int, 512, 0xC000);
        }
        Point { x: px, y: py }
    }

    /// Whether `pos` lies on the stroked body.
    fn body_hit(&self, pos: Point) -> (r: bool)
        requires
            self.wf(),
            point_in_range(pos),
        ensures
            r == self.body_hit_spec(pos),
    {
        let hw: i64 = ((self.width + 1) / 2) as i64;
        if !self.curve_like {
            segment_hit(pos, self.segment.a, self.segment.b, hw)
        } else {
            let mut i: usize = 0;
            let mut prev = self.curve_point(0);
            loop
                invariant
                    self.wf(),
                    self.curve_like,
                    point_in_range(pos),
                    0 <= i < 8,
                    prev == self.curve_point_spec(i as int),
                    ext_point_in_range(prev),
                    hw == self.half_width_spec(),
                    forall|j: int|
                        0 <= j < i ==> !segment_hit_spec(
                            pos,
                            self.curve_point_spec(j),
                            #[trigger] self.curve_point_spec(j + 1),
                            self.half_width_spec(),
                        ),
                decreases 8 - i,
            {
                let next = self.curve_point(i + 1);
                if segment_hit(pos, prev, next, hw) {
                    proof {
                        assert(segment_hit_spec(
                            pos,
                            self.curve_point_spec(i as int),
                            self.curve_point_spec(i as int + 1),
                            self.half_width_spec(),
                        ));
                    }
                    return true;
                }
                if i == 7 {
                    proof {
                        assert(forall|j: int|
                            0 <= j < 8 ==> !segment_hit_spec(
                                pos,
                                self.curve_point_spec(j),
                                #[trigger] self.curve_point_spec(j + 1),
                                self.half_width_spec(),
                            ));
                    }
                    return false;
                }
                i = i + 1;
                prev = next;
            }
        }
    }

    /// The arrow head triangle, if the shape is not degenerate.
    #[verifier::rlimit(60)]
    fn head_triangle(&self) -> (r: Option<(Point, Point, Point)>)
        requires
            self.wf(),
        ensures
            r == self.head_triangle_spec(),
            match r {
                None => true,
                Some((p0, p1, p2)) => ext_point_in_range(p0) && ext_point_in_range(p1)
                    && ext_point_in_range(p2),
            },
    {
        let t: Vector = if self.curve_like {
            if !(self.arrive_dir.x == 0 && self.arrive_dir.y == 0) {
                self.arrive_dir
            } else if !(self.go_dir.x == 0 && self.go_dir.y == 0) {
                Vector {
                    x: self.segment.a.x + self.go_dir.x - self.segment.b.x,
                    y: self.segment.a.y + self.go_dir.y - self.segment.b.y,
                }
            } else {
                Vector {
                    x: self.segment.a.x - self.segment.b.x,
                    y: self.segment.a.y - self.segment.b.y,
                }
            }
        } else {
            Vector {
                x: self.segment.a.x - self.segment.b.x,
                y: self.segment.a.y - self.segment.b.y,
            }
        };
        proof {
            assert(t == self.head_tangent_spec());
            assert(-0x1_0000 <= t.x <= 0x1_0000 && -0x1_0000 <= t.y <= 0x1_0000);
        }
        if t.x == 0 && t.y == 0 {
            return None;
        }
        let ax: i64 = if t.x >= 0 { t.x } else { -t.x };
        let ay: i64 = if t.y >= 0 { t.y } else { -t.y };
        let m: i64 = if ax >= ay { ax } else { ay };
        let s: i64 = (self.width + (self.width / 2)) as i64;
        proof {
            assert(1 <= m <= 0x1_0000 && 1 <= s <= 384);
            assert({
                &&& -(m * s) <= (-t.x) * s
                &&& (-t.x) * s <= m * s
                &&& -(m * s) <= (-t.y) * s
                &&& (-t.y) * s <= m * s
                &&& m * s <= 25165824
            }) by (nonlinear_arith)
                requires
                    -m <= t.x <= m,
                    -m <= t.y <= m,
                    1 <= s <= 384,
                    1 <= m <= 0x1_0000;
        }
        let nx: i64 = (-t.x) * s;
        let ny: i64 = (-t.y) * s;
        let dx = floor_div(nx, m as u64);
        let dy = floor_div(ny, m as u64);
        proof {
            assert({
                &&& (-s) * m <= nx <= s * m
                &&& (-s) * m <= ny <= s * m
            }) by (nonlinear_arith)
                requires
                    nx == (-t.x) * s,
                    ny == (-t.y) * s,
                    -m <= t.x <= m,
                    -m <= t.y <= m,
                    0 <= s;
            lemma_div_bounded(nx as int, m as int, s as int);
            lemma_div_bounded(ny as int, m as int, s as int);
        }
        let b = self.segment.b;
        let apex = Point { x: b.x + dx, y: b.y + dy };
        let c1 = Point { x: b.x - dx - dy, y: b.y - dy + dx };
        let c2 = Point { x: b.x - dx + dy, y: b.y - dy - dx };
        Some((apex, c1, c2))
    }

    /// The controller hit test: go and arrive handles first (selected,
    /// curve-like shapes only), then the endpoint handles (selected
    /// shapes only), then the body stroke, then the head fill.  Small
    /// handles win over the larger body, and handles stay inert until
    /// the shape is selected, so the first click on an unselected shape
    /// can only arm a body move.
    pub fn select_controller(&self, pos: &Point) -> (r: Option<Actions>)
        requires
            self.wf(),
            point_in_range(*pos),
        ensures
            r == self.select_controller_spec(*pos),
    {
        let hr: i64 = self.radius() + 1;
        let va = pos.sub(self.segment.a);
        let vb = pos.sub(self.segment.b);
        if self.selected && self.curve_like {
            if circle_hit(*pos, self.go_handle(), hr) {
                return Some(Actions::MoveGoDirection);
            }
            if circle_hit(*pos, self.arrive_handle(), hr) {
                return Some(Actions::MoveArriveDirection);
            }
        }
        if self.selected {
            if circle_hit(*pos, self.segment.a, hr) {
                return Some(Actions::MoveStartPoint);
            }
            if circle_hit(*pos, self.segment.b, hr) {
                return Some(Actions::MoveEndPoint);
            }
        }
        if self.body_hit(*pos) {
            return Some(Actions::MoveBody(va, vb));
        }
        if self.have_head {
            match self.head_triangle() {
                Some((p0, p1, p2)) => {
                    if triangle_hit(*pos, p0, p1, p2) {
                        return Some(Actions::MoveBody(va, vb));
                    }
                },
                None => {},
            }
        }
        None
    }

    /// Whether a click at `pos` lands anywhere on the shape.
    pub fn in_draw(&self, pos: &Point) -> (r: bool)
        requires
            self.wf(),
            point_in_range(*pos),
        ensures
            r == (self.select_controller_spec(*pos) != None::<Actions>),
    {
        match self.select_controller(pos) {
            None => false,
            Some(_) => true,
        }
    }
}

/// Four weights that are non-negative and sum to 512 keep a weighted sum
/// of bounded coordinates within 512 times the coordinate bound.
proof fn lemma_weighted_sum_bounded(
    w0: int,
    w1: int,
    w2: int,
    w3: int,
    x0: int,
    x1: int,
    x2: int,
    x3: int,
)
    requires
        0 <= w0 <= 512,
        0 <= w1 <= 512,
        0 <= w2 <= 512,
        0 <= w3 <= 512,
        w0 + w1 + w2 + w3 == 512,
        -0xC000 <= x0 <= 0xC000,
        -0xC000 <= x1 <= 0xC000,
        -0xC000 <= x2 <= 0xC000,
        -0xC000 <= x3 <= 0xC000,
    ensures
        -512 * 0xC000 <= w0 * x0 + w1 * x1 + w2 * x2 + w3 * x3 <= 512 * 0xC000,
        -0xC000 * 512 <= w0 * x0 <= 0xC000 * 512,
        -0xC000 * 512 <= w1 * x1 <= 0xC000 * 512,
        -0xC000 * 512 <= w2 * x2 <= 0xC000 * 512,
        -0xC000 * 512 <= w3 * x3 <= 0xC000 * 512,
{
    assert(-w0 * 0xC000 <= w0 * x0 <= w0 * 0xC000) by (nonlinear_arith)
        requires 0 <= w0, -0xC000 <= x0 <= 0xC000;
    assert(-w1 * 0xC000 <= w1 * x1 <= w1 * 0xC000) by (nonlinear_arith)
        requires 0 <= w1, -0xC000 <= x1 <= 0xC000;
    assert(-w2 * 0xC000 <= w2 * x2 <= w2 * 0xC000) by (nonlinear_arith)
        requires 0 <= w2, -0xC000 <= x2 <= 0xC000;
    assert(-w3 * 0xC000 <= w3 * x3 <= w3 * 0xC000) by (nonlinear_arith)
        requires 0 <= w3, -0xC000 <= x3 <= 0xC000;
    assert((w0 + w1 + w2 + w3) * 0xC000 == 512 * 0xC000
        && w0 * 0xC000 + w1 * 0xC000 + w2 * 0xC000 + w3 * 0xC000
            == (w0 + w1 + w2 + w3) * 0xC000) by (nonlinear_arith)
        requires w0 + w1 + w2 + w3 == 512;
}


impl LineArrow {
    /// The center of the shape: the midpoint of its endpoints, rounded
    /// toward the lower coordinate.
    pub open spec fn position_spec(self) -> Point {
        Point {
            x: ((self.segment.a.x + self.segment.b.x) / 2) as i64,
            y: ((self.segment.a.y + self.segment.b.y) / 2) as i64,
        }
    }

    /// Both endpoints shifted by `v`.
    pub open spec fn translate_spec(self, v: Vector) -> LineArrow {
        LineArrow {
            segment: Segment {
                a: Point {
                    x: (self.segment.a.x + v.x) as i64,
                    y: (self.segment.a.y + v.y) as i64,
                },
                b: Point {
                    x: (self.segment.b.x + v.x) as i64,
                    y: (self.segment.b.y + v.y) as i64,
                },
            },
            ..self
        }
    }

    /// Whether shifting by `v` keeps both endpoints within the scene.
    pub open spec fn translate_ok(self, v: Vector) -> bool {
        &&& coord_in_range(self.segment.a.x + v.x)
        &&& coord_in_range(self.segment.a.y + v.y)
        &&& coord_in_range(self.segment.b.x + v.x)
        &&& coord_in_range(self.segment.b.y + v.y)
    }

    /// The mirror image about the horizontal axis through the center:
    /// the endpoints trade their y coordinates and both direction
    /// vectors flip their y component.
    pub open spec fn flip_vertical_spec(self) -> LineArrow {
        LineArrow {
            segment: Segment {
                a: Point { x: self.segment.a.x, y: self.segment.b.y },
                b: Point { x: self.segment.b.x, y: self.segment.a.y },
            },
            go_dir: Vector { x: self.go_dir.x, y: (-self.go_dir.y) as i64 },
            arrive_dir: Vector { x: self.arrive_dir.x, y: (-self.arrive_dir.y) as i64 },
            ..self
        }
    }

    /// The mirror image about the vertical axis through the center.
    pub open spec fn flip_horizontal_spec(self) -> LineArrow {
        LineArrow {
            segment: Segment {
                a: Point { x: self.segment.b.x, y: self.segment.a.y },
                b: Point { x: self.segment.a.x, y: self.segment.b.y },
            },
            go_dir: Vector { x: (-self.go_dir.x) as i64, y: self.go_dir.y },
            arrive_dir: Vector { x: (-self.arrive_dir.x) as i64, y: self.arrive_dir.y },
            ..self
        }
    }

    /// A quarter turn counterclockwise about the center: a relative
    /// offset `(x, y)` becomes `(y, -x)`.
    pub open spec fn rotate_left_spec(self) -> LineArrow {
        let c = self.position_spec();
        LineArrow {
            segment: Segment {
                a: Point {
                    x: (c.x + (self.segment.a.y - c.y)) as i64,
                    y: (c.y - (self.segment.a.x - c.x)) as i64,
                },
                b: Point {
                    x: (c.x + (self.segment.b.y - c.y)) as i64,
                    y: (c.y - (self.segment.b.x - c.x)) as i64,
                },
            },
            go_dir: Vector { x: self.go_dir.y, y: (-self.go_dir.x) as i64 },
            arrive_dir: Vector { x: self.arrive_dir.y, y: (-self.arrive_dir.x) as i64 },
            ..self
        }
    }

    /// A quarter turn clockwise about the center: a relative offset
    /// `(x, y)` becomes `(-y, x)`.
    pub open spec fn rotate_right_spec(self) -> LineArrow {
        let c = self.position_spec();
        LineArrow {
            segment: Segment {
                a: Point {
                    x: (c.x - (self.segment.a.y - c.y)) as i64,
                    y: (c.y + (self.segment.a.x - c.x)) as i64,
                },
                b: Point {
                    x: (c.x - (self.segment.b.y - c.y)) as i64,
                    y: (c.y + (self.segment.b.x - c.x)) as i64,
                },
            },
            go_dir: Vector { x: (-self.go_dir.y) as i64, y: self.go_dir.x },
            arrive_dir: Vector { x: (-self.arrive_dir.y) as i64, y: self.arrive_dir.x },
            ..self
        }
    }

    /// Whether the rotated endpoints stay within the scene.
    pub open spec fn rotate_left_ok(self) -> bool {
        let c = self.position_spec();
        &&& coord_in_range(c.x + (self.segment.a.y - c.y))
        &&& coord_in_range(c.y - (self.segment.a.x - c.x))
        &&& coord_in_range(c.x + (self.segment.b.y - c.y))
        &&& coord_in_range(c.y - (self.segment.b.x - c.x))
    }

    pub open spec fn rotate_right_ok(self) -> bool {
        let c = self.position_spec();
        &&& coord_in_range(c.x - (self.segment.a.y - c.y))
        &&& coord_in_range(c.y + (self.segment.a.x - c.x))
        &&& coord_in_range(c.x - (self.segment.b.y - c.y))
        &&& coord_in_range(c.y + (self.segment.b.x - c.x))
    }

    /// The center of the shape.
    pub fn position(&self) -> (r: Point)
        requires
            self.wf(),
        ensures
            r == self.position_spec(),
            point_in_range(r),
    {
        let x = mid_coord(self.segment.a.x, self.segment.b.x);
        let y = mid_coord(self.segment.a.y, self.segment.b.y);
        Point { x, y }
    }

    /// Move the shape so its center lands on `pos`.
    pub fn move_to(&mut self, pos: &Point)
        requires
            old(self).wf(),
            point_in_range(*pos),
            old(self).translate_ok(
                Vector {
                    x: (pos.x - old(self).position_spec().x) as i64,
                    y: (pos.y - old(self).position_spec().y) as i64,
                },
            ),
        ensures
            *final(self) == old(self).translate_spec(
                Vector {
                    x: (pos.x - old(self).position_spec().x) as i64,
                    y: (pos.y - old(self).position_spec().y) as i64,
                },
            ),
            final(self).wf(),
    {
        let c = self.position();
        let v = Vector { x: pos.x - c.x, y: pos.y - c.y };
        self.translate_by(&v);
    }

    /// Shift both endpoints by `trans`; the direction vectors ride along
    /// unchanged.
    pub fn translate_by(&mut self, trans: &Vector)
        requires
            old(self).wf(),
            vector_in_delta_range(*trans),
            old(self).translate_ok(*trans),
        ensures
            *final(self) == old(self).translate_spec(*trans),
            final(self).wf(),
    {
        self.segment = Segment {
            a: Point { x: self.segment.a.x + trans.x, y: self.segment.a.y + trans.y },
            b: Point { x: self.segment.b.x + trans.x, y: self.segment.b.y + trans.y },
        };
    }

    /// Mirror the shape about the horizontal axis through its center.
    fn flip_vertical_impl(&mut self)
        requires
            old(self).wf(),
        ensures
            *final(self) == old(self).flip_vertical_spec(),
            final(self).wf(),
    {
        let a = self.segment.a;
        let b = self.segment.b;
        self.segment = Segment {
            a: Point { x: a.x, y: b.y },
            b: Point { x: b.x, y: a.y },
        };
        self.go_dir = Vector { x: self.go_dir.x, y: -self.go_dir.y };
        self.arrive_dir = Vector { x: self.arrive_dir.x, y: -self.arrive_dir.y };
    }

    /// Mirror the shape about the vertical axis through its center.
    fn flip_horizontal_impl(&mut self)
        requires
            old(self).wf(),
        ensures
            *final(self) == old(self).flip_horizontal_spec(),
            final(self).wf(),
    {
        let a = self.segment.a;
        let b = self.segment.b;
        self.segment = Segment {
            a: Point { x: b.x, y: a.y },
            b: Point { x: a.x, y: b.y },
        };
        self.go_dir = Vector { x: -self.go_dir.x, y: self.go_dir.y };
        self.arrive_dir = Vector { x: -self.arrive_dir.x, y: self.arrive_dir.y };
    }

    /// Rotate the shape a quarter turn counterclockwise about its center.
    fn rotate_left_impl(&mut self)
        requires
            old(self).wf(),
            old(self).rotate_left_ok(),
        ensures
            *final(self) == old(self).rotate_left_spec(),
            final(self).wf(),
    {
        let c = self.position();
        let a = self.segment.a;
        let b = self.segment.b;
        self.segment = Segment {
            a: Point { x: c.x + (a.y - c.y), y: c.y - (a.x - c.x) },
            b: Point { x: c.x + (b.y - c.y), y: c.y - (b.x - c.x) },
        };
        self.go_dir = Vector { x: self.go_dir.y, y: -self.go_dir.x };
        self.arrive_dir = Vector { x: self.arrive_dir.y, y: -self.arrive_dir.x };
    }

    /// Rotate the shape a quarter turn clockwise about its center.
    fn rotate_right_impl(&mut self)
        requires
            old(self).wf(),
            old(self).rotate_right_ok(),
        ensures
            *final(self) == old(self).rotate_right_spec(),
            final(self).wf(),
    {
        let c = self.position();
        let a = self.segment.a;
        let b = self.segment.b;
        self.segment = Segment {
            a: Point { x: c.x - (a.y - c.y), y: c.y + (a.x - c.x) },
            b: Point { x: c.x - (b.y - c.y), y: c.y + (b.x - c.x) },
        };
        self.go_dir = Vector { x: -self.go_dir.y, y: self.go_dir.x };
        self.arrive_dir = Vector { x: -self.arrive_dir.y, y: self.arrive_dir.x };
    }
}

/// Translation round trip: shifting by `v` and back by `-v` restores
/// every endpoint exactly.
pub proof fn lemma_translate_round_trip(s: LineArrow, v: Vector)
    requires
        s.wf(),
        vector_in_delta_range(v),
        s.translate_ok(v),
    ensures
        s.translate_spec(v).translate_spec(Vector { x: (-v.x) as i64, y: (-v.y) as i64 }) == s,
{
    assert(s.translate_spec(v).translate_spec(
        Vector { x: (-v.x) as i64, y: (-v.y) as i64 },
    ).segment =~= s.segment);
}

/// Flip involution: two vertical flips (or two horizontal flips) restore
/// the original segment and both direction vectors.
pub proof fn lemma_flip_involution(s: LineArrow)
    requires
        s.wf(),
    ensures
        s.flip_vertical_spec().flip_vertical_spec() == s,
        s.flip_horizontal_spec().flip_horizontal_spec() == s,
{
}


/// The square box around `c` reaching `r` in every direction.
pub open spec fn square_box_spec(c: Point, r: int) -> Rectangle {
    Rectangle {
        min_x: (c.x - r) as i64,
        min_y: (c.y - r) as i64,
        max_x: (c.x + r) as i64,
        max_y: (c.y + r) as i64,
    }
}

/// The bounding box of two points.
pub open spec fn bbox2_spec(p: Point, q: Point) -> Rectangle {
    Rectangle {
        min_x: min_i64(p.x, q.x),
        min_y: min_i64(p.y, q.y),
        max_x: max_i64(p.x, q.x),
        max_y: max_i64(p.y, q.y),
    }
}

/// A rectangle grown by `m` on every side.
pub open spec fn grow_box_spec(r: Rectangle, m: int) -> Rectangle {
    Rectangle {
        min_x: (r.min_x - m) as i64,
        min_y: (r.min_y - m) as i64,
        max_x: (r.max_x + m) as i64,
        max_y: (r.max_y + m) as i64,
    }
}

impl LineArrow {
    /// The bounding box of the stroked body: the control polygon of the
    /// flattened curve (which contains the curve), or the straight
    /// segment, grown by half the stroke width to cover the stroke and
    /// its round caps.
    pub open spec fn seg_box_spec(self) -> Rectangle {
        if self.curve_like {
            grow_box_spec(
                merged_spec(
                    bbox2_spec(self.segment.a, self.go_handle_spec()),
                    bbox2_spec(self.segment.b, self.arrive_handle_spec()),
                ),
                self.half_width_spec(),
            )
        } else {
            grow_box_spec(bbox2_spec(self.segment.a, self.segment.b), self.half_width_spec())
        }
    }

    /// The bounding box of the arrow head, when one is drawn.
    pub open spec fn head_box_spec(self) -> Option<Rectangle> {
        match self.head_triangle_spec() {
            None => None,
            Some((p0, p1, p2)) => Some(
                merged_spec(bbox2_spec(p0, p1), bbox2_spec(p1, p2)),
            ),
        }
    }

    /// The user-space extent of everything the shape can render: the
    /// two endpoint handles, the two direction handles of a curve-like
    /// shape, the stroked body, and the head fill if the shape has one.
    /// Each handle circle is drawn with a two-unit outline, hence the
    /// extra unit around its radius.
    pub open spec fn extents_user_spec(self) -> Rectangle {
        let hr = self.handle_radius_spec();
        let handles = if self.curve_like {
            merged_spec(
                merged_spec(
                    square_box_spec(self.go_handle_spec(), hr),
                    square_box_spec(self.arrive_handle_spec(), hr),
                ),
                merged_spec(
                    square_box_spec(self.segment.a, hr),
                    square_box_spec(self.segment.b, hr),
                ),
            )
        } else {
            merged_spec(
                square_box_spec(self.segment.a, hr),
                square_box_spec(self.segment.b, hr),
            )
        };
        let with_seg = merged_spec(handles, self.seg_box_spec());
        if self.have_head {
            match self.head_box_spec() {
                None => with_seg,
                Some(hb) => merged_spec(with_seg, hb),
            }
        } else {
            with_seg
        }
    }

    /// The user-space extent, with its well-formedness facts.
    #[verifier::rlimit(100)]
    fn extents_user(&self) -> (r: Rectangle)
        requires
            self.wf(),
        ensures
            r == self.extents_user_spec(),
            rect_wf(r),
            ext_coord_in_range(r.min_x as int) && ext_coord_in_range(r.min_y as int),
            ext_coord_in_range(r.max_x as int) && ext_coord_in_range(r.max_y as int),
    {
        let hr: i64 = self.radius() + 1;
        let sa = self.segment.a;
        let sb = self.segment.b;
        let box_a = Rectangle { min_x: sa.x - hr, min_y: sa.y - hr, max_x: sa.x + hr, max_y: sa.y + hr };
        let box_b = Rectangle { min_x: sb.x - hr, min_y: sb.y - hr, max_x: sb.x + hr, max_y: sb.y + hr };
        let endpoints = box_a.merged(box_b);
        let handles = if self.curve_like {
            let g = self.go_handle();
            let v = self.arrive_handle();
            let box_g = Rectangle { min_x: g.x - hr, min_y: g.y - hr, max_x: g.x + hr, max_y: g.y + hr };
            let box_v = Rectangle { min_x: v.x - hr, min_y: v.y - hr, max_x: v.x + hr, max_y: v.y + hr };
            box_g.merged(box_v).merged(endpoints)
        } else {
            endpoints
        };
        let hw: i64 = ((self.width + 1) / 2) as i64;
        let seg_box = if self.curve_like {
            let g = self.go_handle();
            let v = self.arrive_handle();
            let core = bbox2(sa, g).merged(bbox2(sb, v));
            Rectangle {
                min_x: core.min_x - hw,
                min_y: core.min_y - hw,
                max_x: core.max_x + hw,
                max_y: core.max_y + hw,
            }
        } else {
            let core = bbox2(sa, sb);
            Rectangle {
                min_x: core.min_x - hw,
                min_y: core.min_y - hw,
                max_x: core.max_x + hw,
                max_y: core.max_y + hw,
            }
        };
        let with_seg = handles.merged(seg_box);
        if self.have_head {
            match self.head_triangle() {
                None => with_seg,
                Some((p0, p1, p2)) => with_seg.merged(bbox2(p0, p1).merged(bbox2(p1, p2))),
            }
        } else {
            with_seg
        }
    }

    /// The device-space extent of everything the shape renders under the
    /// transform of `ctx`, or nothing for an invisible shape.
    pub fn draw_extents(&self, ctx: &RenderContext) -> (r: Option<Rectangle>)
        requires
            self.wf(),
            transform_wf(ctx.transform),
        ensures
            !self.visible ==> r == None::<Rectangle>,
            self.visible ==> r == Some(
                rect_to_device_spec(ctx.transform, self.extents_user_spec()),
            ),
            match r {
                None => true,
                Some(rr) => rect_wf(rr),
            },
    {
        if !self.visible {
            return None;
        }
        let user = self.extents_user();
        Some(ctx.transform.user_to_device_rect(&user))
    }
}

/// A rectangle mapped corner by corner into device space.
pub open spec fn rect_to_device_spec(t: Transform, r: Rectangle) -> Rectangle {
    Rectangle {
        min_x: crate::context::to_device_spec(t, r.min_x as int, t.translate.x as int) as i64,
        min_y: crate::context::to_device_spec(t, r.min_y as int, t.translate.y as int) as i64,
        max_x: crate::context::to_device_spec(t, r.max_x as int, t.translate.x as int) as i64,
        max_y: crate::context::to_device_spec(t, r.max_y as int, t.translate.y as int) as i64,
    }
}

/// The bounding box of two points.
pub fn bbox2(p: Point, q: Point) -> (r: Rectangle)
    ensures
        r == bbox2_spec(p, q),
        rect_wf(r),
{
    Rectangle {
        min_x: if p.x <= q.x { p.x } else { q.x },
        min_y: if p.y <= q.y { p.y } else { q.y },
        max_x: if p.x >= q.x { p.x } else { q.x },
        max_y: if p.y >= q.y { p.y } else { q.y },
    }
}


impl LineArrow {
    /// The start point replaced by `pos`.
    pub open spec fn with_start(self, pos: Point) -> LineArrow {
        LineArrow { segment: Segment { a: pos, b: self.segment.b }, ..self }
    }

    /// The end point replaced by `pos`.
    pub open spec fn with_end(self, pos: Point) -> LineArrow {
        LineArrow { segment: Segment { a: self.segment.a, b: pos }, ..self }
    }

    /// The go-direction vector re-aimed from the start point at `pos`.
    pub open spec fn with_go(self, pos: Point) -> LineArrow {
        LineArrow {
            go_dir: Vector {
                x: (pos.x - self.segment.a.x) as i64,
                y: (pos.y - self.segment.a.y) as i64,
            },
            ..self
        }
    }

    /// The arrive-direction vector re-aimed from the end point at `pos`.
    pub open spec fn with_arrive(self, pos: Point) -> LineArrow {
        LineArrow {
            arrive_dir: Vector {
                x: (pos.x - self.segment.b.x) as i64,
                y: (pos.y - self.segment.b.y) as i64,
            },
            ..self
        }
    }

    /// A body drag: both endpoints follow the pointer, each keeping the
    /// offset it had from the press position, clamped to the scene.
    pub open spec fn with_body(self, pos: Point) -> LineArrow {
        match self.action {
            Some(Actions::MoveBody(va, vb)) => LineArrow {
                segment: Segment {
                    a: Point {
                        x: clamp_coord_spec(pos.x - va.x) as i64,
                        y: clamp_coord_spec(pos.y - va.y) as i64,
                    },
                    b: Point {
                        x: clamp_coord_spec(pos.x - vb.x) as i64,
                        y: clamp_coord_spec(pos.y - vb.y) as i64,
                    },
                },
                ..self
            },
            _ => self,
        }
    }

    /// The motion transition: what one pointer motion at user-space
    /// `pos` does to the shape, and whether the event is consumed.
    /// A locked or hidden shape ignores motion.  In `Editing` the armed
    /// action is applied while the primary button is held.  In a
    /// creation mode the armed point or vector tracks the pointer
    /// freely, previewing the next click.
    pub open spec fn motion_spec(self, held: bool, pos: Point) -> (LineArrow, bool) {
        if self.lock || !self.visible {
            (self, false)
        } else if self.mode == Mode::Editing {
            if held {
                match self.action {
                    None => (self, false),
                    Some(Actions::MoveGoDirection) => (self.with_go(pos), true),
                    Some(Actions::MoveArriveDirection) => (self.with_arrive(pos), true),
                    Some(Actions::MoveStartPoint) => (self.with_start(pos), true),
                    Some(Actions::MoveEndPoint) => (self.with_end(pos), true),
                    Some(Actions::MoveBody(va, vb)) => (self.with_body(pos), true),
                }
            } else {
                (self, false)
            }
        } else {
            match self.action {
                Some(Actions::MoveStartPoint) => (self.with_start(pos), true),
                Some(Actions::MoveEndPoint) => (self.with_end(pos), true),
                Some(Actions::MoveGoDirection) => (self.with_go(pos), true),
                Some(Actions::MoveArriveDirection) => (self.with_arrive(pos), true),
                _ => (self, true),
            }
        }
    }

    /// The button-press transition.  A locked shape and a non-primary
    /// button are ignored.  In a creation mode each click advances the
    /// fixed placement sequence.  In `Editing` the controller hit test
    /// re-arms the action; a press on a hidden shape is a no-op, and a
    /// miss disarms and unselects.
    pub open spec fn button_press_spec(self, button: u8, pos: Point) -> (LineArrow, bool) {
        if self.lock {
            (self, false)
        } else if button != PRIMARY_BUTTON {
            (self, false)
        } else if self.mode != Mode::Editing {
            match self.action {
                Some(Actions::MoveStartPoint) => (
                    LineArrow {
                        action: Some(Actions::MoveEndPoint),
                        segment: Segment { a: pos, b: pos },
                        visible: true,
                        selected: true,
                        ..self
                    },
                    true,
                ),
                Some(Actions::MoveEndPoint) => if self.mode == Mode::CreatingCurve || self.mode
                    == Mode::CreatingCurveArrow {
                    (
                        LineArrow {
                            action: Some(Actions::MoveGoDirection),
                            segment: Segment { a: self.segment.a, b: pos },
                            selected: true,
                            ..self
                        },
                        true,
                    )
                } else {
                    (
                        LineArrow {
                            action: None,
                            mode: Mode::Editing,
                            segment: Segment { a: self.segment.a, b: pos },
                            selected: true,
                            ..self
                        },
                        true,
                    )
                },
                Some(Actions::MoveGoDirection) => (
                    LineArrow {
                        action: Some(Actions::MoveArriveDirection),
                        selected: true,
                        ..self.with_go(pos)
                    },
                    true,
                ),
                Some(Actions::MoveArriveDirection) => (
                    LineArrow {
                        action: None,
                        mode: Mode::Editing,
                        selected: true,
                        ..self.with_arrive(pos)
                    },
                    true,
                ),
                _ => (self, true),
            }
        } else if !self.visible {
            (self, false)
        } else {
            match self.select_controller_spec(pos) {
                None => (LineArrow { action: None, selected: false, ..self }, false),
                Some(act) => (LineArrow { action: Some(act), selected: true, ..self }, true),
            }
        }
    }

    /// Apply one pointer motion; see [`Self::motion_spec`].
    pub fn motion_notify(&mut self, event: &MotionEvent, pos: &Point) -> (r: bool)
        requires
            old(self).wf(),
            point_in_range(*pos),
        ensures
            *final(self) == old(self).motion_spec(event.primary_held, *pos).0,
            r == old(self).motion_spec(event.primary_held, *pos).1,
            final(self).wf(),
    {
        if self.lock || !self.visible {
            return false;
        }
        match self.mode {
            Mode::Editing => {
                if event.primary_held {
                    let act = self.action;
                    match act {
                        None => false,
                        Some(Actions::MoveGoDirection) => {
                            self.go_dir = Vector {
                                x: pos.x - self.segment.a.x,
                                y: pos.y - self.segment.a.y,
                            };
                            true
                        },
                        Some(Actions::MoveArriveDirection) => {
                            self.arrive_dir = Vector {
                                x: pos.x - self.segment.b.x,
                                y: pos.y - self.segment.b.y,
                            };
                            true
                        },
                        Some(Actions::MoveStartPoint) => {
                            self.segment = Segment { a: *pos, b: self.segment.b };
                            true
                        },
                        Some(Actions::MoveEndPoint) => {
                            self.segment = Segment { a: self.segment.a, b: *pos };
                            true
                        },
                        Some(Actions::MoveBody(va, vb)) => {
                            let ax = clamp_coord(pos.x - va.x);
                            let ay = clamp_coord(pos.y - va.y);
                            let bx = clamp_coord(pos.x - vb.x);
                            let by = clamp_coord(pos.y - vb.y);
                            self.segment = Segment {
                                a: Point { x: ax, y: ay },
                                b: Point { x: bx, y: by },
                            };
                            true
                        },
                    }
                } else {
                    false
                }
            },
            _ => {
                let act = self.action;
                match act {
                    Some(Actions::MoveStartPoint) => {
                        self.segment = Segment { a: *pos, b: self.segment.b };
                    },
                    Some(Actions::MoveEndPoint) => {
                        self.segment = Segment { a: self.segment.a, b: *pos };
                    },
                    Some(Actions::MoveGoDirection) => {
                        self.go_dir = Vector {
                            x: pos.x - self.segment.a.x,
                            y: pos.y - self.segment.a.y,
                        };
                    },
                    Some(Actions::MoveArriveDirection) => {
                        self.arrive_dir = Vector {
                            x: pos.x - self.segment.b.x,
                            y: pos.y - self.segment.b.y,
                        };
                    },
                    _ => {},
                }
                true
            },
        }
    }

    /// Apply one primary-button press; see [`Self::button_press_spec`].
    pub fn button_press(&mut self, event: &ButtonEvent, pos: &Point) -> (r: bool)
        requires
            old(self).wf(),
            point_in_range(*pos),
        ensures
            *final(self) == old(self).button_press_spec(event.button, *pos).0,
            r == old(self).button_press_spec(event.button, *pos).1,
            final(self).wf(),
    {
        if self.lock {
            return false;
        }
        if event.button != PRIMARY_BUTTON {
            return false;
        }
        let creating = match self.mode {
            Mode::Editing => false,
            _ => true,
        };
        if creating {
            let act = self.action;
            match act {
                Some(Actions::MoveStartPoint) => {
                    self.action = Some(Actions::MoveEndPoint);
                    self.segment = Segment { a: *pos, b: *pos };
                    self.visible = true;
                },
                Some(Actions::MoveEndPoint) => {
                    let to_curve = match self.mode {
                        Mode::CreatingCurve => true,
                        Mode::CreatingCurveArrow => true,
                        _ => false,
                    };
                    if to_curve {
                        self.action = Some(Actions::MoveGoDirection);
                    } else {
                        self.action = None;
                        self.mode = Mode::Editing;
                    }
                    self.segment = Segment { a: self.segment.a, b: *pos };
                },
                Some(Actions::MoveGoDirection) => {
                    self.action = Some(Actions::MoveArriveDirection);
                    self.go_dir = Vector {
                        x: pos.x - self.segment.a.x,
                        y: pos.y - self.segment.a.y,
                    };
                },
                Some(Actions::MoveArriveDirection) => {
                    self.action = None;
                    self.mode = Mode::Editing;
                    self.arrive_dir = Vector {
                        x: pos.x - self.segment.b.x,
                        y: pos.y - self.segment.b.y,
                    };
                },
                _ => {},
            }
            self.selected = true;
            true
        } else {
            if !self.visible {
                return false;
            }
            let act = self.select_controller(pos);
            match act {
                None => {
                    self.action = None;
                    self.selected = false;
                    false
                },
                Some(a) => {
                    self.action = Some(a);
                    self.selected = true;
                    true
                },
            }
        }
    }

    /// A button release performs no transition: the armed action
    /// persists until the next press re-evaluates the hit test.
    pub fn button_release(&mut self, event: &ButtonEvent, pos: &Point) -> (r: bool)
        ensures
            *final(self) == *old(self),
            r == false,
    {
        let _ = event;
        let _ = pos;
        false
    }

    /// Shapes do not react to keys; the page-level pan action does.
    pub fn key_press(&mut self, event: &KeyEvent) -> (r: bool)
        ensures
            *final(self) == *old(self),
            r == false,
    {
        let _ = event;
        false
    }

    pub fn key_release(&mut self, event: &KeyEvent) -> (r: bool)
        ensures
            *final(self) == *old(self),
            r == false,
    {
        let _ = event;
        false
    }
}

/// Hit-test priority: on a selected, curve-like shape a click within the
/// go-direction handle arms `MoveGoDirection`, whatever else it lands on.
pub proof fn lemma_hit_priority_go_handle(s: LineArrow, pos: Point)
    requires
        s.selected,
        s.curve_like,
        circle_hit_spec(pos, s.go_handle_spec(), s.handle_radius_spec()),
    ensures
        s.select_controller_spec(pos) == Some(Actions::MoveGoDirection),
{
}


impl Flip for LineArrow {
    open spec fn flip_ok(&self) -> bool {
        self.wf()
    }

    fn flip_vertical(&mut self)
        ensures
            *final(self) == old(self).flip_vertical_spec(),
            final(self).wf(),
    {
        self.flip_vertical_impl();
    }

    fn flip_horizontal(&mut self)
        ensures
            *final(self) == old(self).flip_horizontal_spec(),
            final(self).wf(),
    {
        self.flip_horizontal_impl();
    }
}

impl Rotate for LineArrow {
    open spec fn rotate_left_allowed(&self) -> bool {
        self.wf() && self.rotate_left_ok()
    }

    open spec fn rotate_right_allowed(&self) -> bool {
        self.wf() && self.rotate_right_ok()
    }

    fn rotate_left(&mut self)
        ensures
            *final(self) == old(self).rotate_left_spec(),
            final(self).wf(),
    {
        self.rotate_left_impl();
    }

    fn rotate_right(&mut self)
        ensures
            *final(self) == old(self).rotate_right_spec(),
            final(self).wf(),
    {
        self.rotate_right_impl();
    }
}

impl Select for LineArrow {
    open spec fn sel_spec(&self) -> bool {
        self.selected
    }

    fn is_selected(&self) -> (r: bool)
        ensures
            r == self.selected,
    {
        self.selected
    }

    /// Idempotent: selecting a selected shape changes nothing.
    fn select(&mut self)
        ensures
            *final(self) == (LineArrow { selected: true, ..*old(self) }),
    {
        self.selected = true;
    }

    fn unselect(&mut self)
        ensures
            *final(self) == (LineArrow { selected: false, ..*old(self) }),
    {
        self.selected = false;
    }

    fn toggle_select(&mut self) -> (r: bool)
        ensures
            *final(self) == (LineArrow { selected: !old(self).selected, ..*old(self) }),
            r == final(self).selected,
    {
        self.selected = !self.selected;
        self.selected
    }
}


impl LineArrow {
    /// The leading on/off pair of the dash pattern as the sink receives
    /// it: a one-element pattern alternates symmetrically, an empty one
    /// is solid.
    pub open spec fn dash_pair_spec(self) -> (u32, u32) {
        if self.dashes@.len() == 0 {
            (0, 0)
        } else if self.dashes@.len() == 1 {
            (self.dashes@[0], self.dashes@[0])
        } else {
            (self.dashes@[0], self.dashes@[1])
        }
    }

    /// The commands that stroke the body: style, then the straight
    /// segment or the cubic curve through the two control points.
    pub open spec fn segment_cmds_spec(self) -> Seq<DrawCmd> {
        let (on, off) = self.dash_pair_spec();
        seq![
            DrawCmd::NewPath,
            DrawCmd::SetColorAlpha(self.color),
            DrawCmd::SetWidth(self.width),
            DrawCmd::SetCap(self.cap),
            DrawCmd::SetJoin(self.join),
            DrawCmd::SetDash(on, off, self.offset),
            DrawCmd::MoveTo(self.segment.a),
        ] + (if self.curve_like {
            seq![
                DrawCmd::CurveTo(self.go_handle_spec(), self.arrive_handle_spec(), self.segment.b),
            ]
        } else {
            seq![DrawCmd::LineTo(self.segment.b)]
        }) + seq![DrawCmd::Stroke]
    }

    /// The commands that fill the arrow head; a degenerate shape draws
    /// none.
    pub open spec fn head_cmds_spec(self) -> Seq<DrawCmd> {
        match self.head_triangle_spec() {
            None => Seq::<DrawCmd>::empty(),
            Some((p0, p1, p2)) => seq![
                DrawCmd::NewPath,
                DrawCmd::SetColorAlpha(self.color),
                DrawCmd::MoveTo(p0),
                DrawCmd::LineTo(p1),
                DrawCmd::LineTo(p2),
                DrawCmd::ClosePath,
                DrawCmd::Fill,
            ],
        }
    }

    /// The commands that draw one round handle at `c`.
    pub open spec fn handle_cmds_spec(self, c: Point) -> Seq<DrawCmd> {
        seq![
            DrawCmd::NewPath,
            DrawCmd::SetWidth(2),
            DrawCmd::Circle(c, self.radius_spec() as i64),
            DrawCmd::SetColor(RgbColor { red: 248, green: 248, blue: 255 }),
            DrawCmd::FillPreserve,
            DrawCmd::SetColor(RgbColor { red: 119, green: 136, blue: 153 }),
            DrawCmd::Stroke,
        ]
    }

    /// The faint dashed lines from each endpoint to its direction
    /// handle, drawn while a curve-like shape is selected.
    pub open spec fn helper_cmds_spec(self) -> Seq<DrawCmd> {
        seq![DrawCmd::Save] + (if self.curve_like {
            seq![
                DrawCmd::NewPath,
                DrawCmd::SetWidth(2),
                DrawCmd::SetColorAlpha(RgbaColor { color: self.color.color, alpha: 77 }),
                DrawCmd::SetDash(10, 10, 0),
                DrawCmd::MoveTo(self.segment.a),
                DrawCmd::LineTo(self.go_handle_spec()),
                DrawCmd::Stroke,
                DrawCmd::MoveTo(self.segment.b),
                DrawCmd::LineTo(self.arrive_handle_spec()),
                DrawCmd::Stroke,
            ]
        } else {
            Seq::<DrawCmd>::empty()
        }) + seq![DrawCmd::Restore]
    }

    /// The handles drawn on a selected shape: endpoints always, the
    /// direction handles when curve-like.
    pub open spec fn controller_cmds_spec(self) -> Seq<DrawCmd> {
        seq![DrawCmd::Save] + self.handle_cmds_spec(self.segment.a) + seq![DrawCmd::Restore]
            + seq![DrawCmd::Save] + self.handle_cmds_spec(self.segment.b) + seq![DrawCmd::Restore]
            + (if self.curve_like {
            seq![DrawCmd::Save] + self.handle_cmds_spec(self.go_handle_spec())
                + seq![DrawCmd::Restore] + seq![DrawCmd::Save]
                + self.handle_cmds_spec(self.arrive_handle_spec()) + seq![DrawCmd::Restore]
        } else {
            Seq::<DrawCmd>::empty()
        })
    }

    /// The body: the stroked segment, then the head fill if the shape
    /// has one.
    pub open spec fn body_cmds_spec(self) -> Seq<DrawCmd> {
        seq![DrawCmd::Save] + self.segment_cmds_spec() + seq![DrawCmd::Restore]
            + (if self.have_head {
            seq![DrawCmd::Save] + self.head_cmds_spec() + seq![DrawCmd::Restore]
        } else {
            Seq::<DrawCmd>::empty()
        })
    }

    /// Everything one draw pass of the shape appends: nothing when the
    /// shape is invisible or fully transparent; otherwise the body, the
    /// selection furniture when selected, and the children bottom-up.
    pub open spec fn draw_cmds_spec(self) -> Seq<DrawCmd>
        decreases self,
    {
        if !self.visible || self.color.alpha == 0 {
            Seq::<DrawCmd>::empty()
        } else {
            seq![DrawCmd::Save] + self.body_cmds_spec() + (if self.selected {
                self.helper_cmds_spec() + self.controller_cmds_spec()
            } else {
                Seq::<DrawCmd>::empty()
            }) + children_cmds_spec(self.children@) + seq![DrawCmd::Restore]
        }
    }
}

/// The concatenated draw commands of a list of shapes, bottom-up.
pub open spec fn children_cmds_spec(q: Seq<Shape>) -> Seq<DrawCmd>
    decreases q,
{
    if q.len() == 0 {
        Seq::<DrawCmd>::empty()
    } else {
        shape_cmds_spec(q[0]) + children_cmds_spec(q.drop_first())
    }
}

/// The draw commands of one shape of the catalog.
pub open spec fn shape_cmds_spec(sh: Shape) -> Seq<DrawCmd>
    decreases sh,
{
    match sh {
        Shape::LineArrow(la) => la.draw_cmds_spec(),
    }
}


impl LineArrow {
    /// Stroke the body into the recording.
    fn draw_segment(&self, ctx: &mut RenderContext)
        requires
            self.wf(),
        ensures
            final(ctx).transform == old(ctx).transform,
            final(ctx).cmds@ == old(ctx).cmds@ + self.segment_cmds_spec(),
    {
        ctx.push(DrawCmd::NewPath);
        ctx.push(DrawCmd::SetColorAlpha(self.color));
        ctx.push(DrawCmd::SetWidth(self.width));
        ctx.push(DrawCmd::SetCap(self.cap));
        ctx.push(DrawCmd::SetJoin(self.join));
        let (on, off): (u32, u32) = if self.dashes.len() == 0 {
            (0, 0)
        } else if self.dashes.len() == 1 {
            (self.dashes[0], self.dashes[0])
        } else {
            (self.dashes[0], self.dashes[1])
        };
        ctx.push(DrawCmd::SetDash(on, off, self.offset));
        ctx.push(DrawCmd::MoveTo(self.segment.a));
        if self.curve_like {
            ctx.push(DrawCmd::CurveTo(self.go_handle(), self.arrive_handle(), self.segment.b));
        } else {
            ctx.push(DrawCmd::LineTo(self.segment.b));
        }
        ctx.push(DrawCmd::Stroke);
        proof {
            assert(final(ctx).cmds@ =~= old(ctx).cmds@ + self.segment_cmds_spec());
        }
    }

    /// Fill the arrow head into the recording.
    fn draw_head(&self, ctx: &mut RenderContext)
        requires
            self.wf(),
        ensures
            final(ctx).transform == old(ctx).transform,
            final(ctx).cmds@ == old(ctx).cmds@ + self.head_cmds_spec(),
    {
        match self.head_triangle() {
            None => {
                proof {
                    assert(final(ctx).cmds@ =~= old(ctx).cmds@ + self.head_cmds_spec());
                }
            },
            Some((p0, p1, p2)) => {
                ctx.push(DrawCmd::NewPath);
                ctx.push(DrawCmd::SetColorAlpha(self.color));
                ctx.push(DrawCmd::MoveTo(p0));
                ctx.push(DrawCmd::LineTo(p1));
                ctx.push(DrawCmd::LineTo(p2));
                ctx.push(DrawCmd::ClosePath);
                ctx.push(DrawCmd::Fill);
                proof {
                    assert(final(ctx).cmds@ =~= old(ctx).cmds@ + self.head_cmds_spec());
                }
            },
        }
    }

    /// Draw one round handle at `c`.
    fn draw_handle(&self, ctx: &mut RenderContext, c: Point)
        requires
            self.wf(),
        ensures
            final(ctx).transform == old(ctx).transform,
            final(ctx).cmds@ == old(ctx).cmds@ + self.handle_cmds_spec(c),
    {
        ctx.push(DrawCmd::NewPath);
        ctx.push(DrawCmd::SetWidth(2));
        ctx.push(DrawCmd::Circle(c, self.radius()));
        ctx.push(DrawCmd::SetColor(RgbColor { red: 248, green: 248, blue: 255 }));
        ctx.push(DrawCmd::FillPreserve);
        ctx.push(DrawCmd::SetColor(RgbColor { red: 119, green: 136, blue: 153 }));
        ctx.push(DrawCmd::Stroke);
        proof {
            assert(final(ctx).cmds@ =~= old(ctx).cmds@ + self.handle_cmds_spec(c));
        }
    }

    /// Draw the dashed helper lines of a selected curve-like shape.
    fn draw_helper_shapes(&self, ctx: &mut RenderContext)
        requires
            self.wf(),
        ensures
            final(ctx).transform == old(ctx).transform,
            final(ctx).cmds@ == old(ctx).cmds@ + self.helper_cmds_spec(),
    {
        ctx.push(DrawCmd::Save);
        if self.curve_like {
            ctx.push(DrawCmd::NewPath);
            ctx.push(DrawCmd::SetWidth(2));
            ctx.push(DrawCmd::SetColorAlpha(RgbaColor { color: self.color.color, alpha: 77 }));
            ctx.push(DrawCmd::SetDash(10, 10, 0));
            ctx.push(DrawCmd::MoveTo(self.segment.a));
            ctx.push(DrawCmd::LineTo(self.go_handle()));
            ctx.push(DrawCmd::Stroke);
            ctx.push(DrawCmd::MoveTo(self.segment.b));
            ctx.push(DrawCmd::LineTo(self.arrive_handle()));
            ctx.push(DrawCmd::Stroke);
        }
        ctx.push(DrawCmd::Restore);
        proof {
            assert(final(ctx).cmds@ =~= old(ctx).cmds@ + self.helper_cmds_spec());
        }
    }

    /// Draw the editing handles of a selected shape.
    fn draw_controllers(&self, ctx: &mut RenderContext)
        requires
            self.wf(),
        ensures
            final(ctx).transform == old(ctx).transform,
            final(ctx).cmds@ == old(ctx).cmds@ + self.controller_cmds_spec(),
    {
        ctx.push(DrawCmd::Save);
        self.draw_handle(ctx, self.segment.a);
        ctx.push(DrawCmd::Restore);
        ctx.push(DrawCmd::Save);
        self.draw_handle(ctx, self.segment.b);
        ctx.push(DrawCmd::Restore);
        if self.curve_like {
            ctx.push(DrawCmd::Save);
            let g = self.go_handle();
            self.draw_handle(ctx, g);
            ctx.push(DrawCmd::Restore);
            ctx.push(DrawCmd::Save);
            let v = self.arrive_handle();
            self.draw_handle(ctx, v);
            ctx.push(DrawCmd::Restore);
        }
        proof {
            assert(final(ctx).cmds@ =~= old(ctx).cmds@ + self.controller_cmds_spec());
        }
    }

    /// Draw the body: segment stroke, then head fill if present.
    fn draw_body(&self, ctx: &mut RenderContext)
        requires
            self.wf(),
        ensures
            final(ctx).transform == old(ctx).transform,
            final(ctx).cmds@ == old(ctx).cmds@ + self.body_cmds_spec(),
    {
        ctx.push(DrawCmd::Save);
        self.draw_segment(ctx);
        ctx.push(DrawCmd::Restore);
        if self.have_head {
            ctx.push(DrawCmd::Save);
            self.draw_head(ctx);
            ctx.push(DrawCmd::Restore);
        }
        proof {
            assert(final(ctx).cmds@ =~= old(ctx).cmds@ + self.body_cmds_spec());
        }
    }

    /// One full draw pass of the shape and its children; appends exactly
    /// [`Self::draw_cmds_spec`] to the recording.
    #[verifier::rlimit(100)]
    pub fn draw(&self, ctx: &mut RenderContext)
        requires
            self.wf(),
        ensures
            final(ctx).transform == old(ctx).transform,
            final(ctx).cmds@ == old(ctx).cmds@ + self.draw_cmds_spec(),
        decreases *self,
    {
        if !self.visible || self.color.alpha == 0 {
            proof {
                assert(final(ctx).cmds@ =~= old(ctx).cmds@ + self.draw_cmds_spec());
            }
            return;
        }
        ctx.push(DrawCmd::Save);
        self.draw_body(ctx);
        if self.selected {
            self.draw_helper_shapes(ctx);
            self.draw_controllers(ctx);
        }
        let ghost mid = ctx.cmds@;
        let mut i: usize = 0;
        while i < self.children.len()
            invariant
                self.wf(),
                0 <= i <= self.children@.len(),
                ctx.cmds@ == mid + children_cmds_spec(self.children@.take(i as int)),
                ctx.transform == old(ctx).transform,
            decreases self.children@.len() - i,
        {
            proof {
                assert(self.wf());
                assert(forall|j: int|
                    0 <= j < self.children@.len() ==> #[trigger] self.children@[j].wf());
                assert(self.children@[i as int].wf());
            }
            let child = &self.children[i];
            child.draw(ctx);
            proof {
                lemma_children_cmds_snoc(self.children@.take(i as int), self.children@[i as int]);
                assert(self.children@.take(i + 1) =~= self.children@.take(i as int).push(
                    self.children@[i as int],
                ));
            }
            i = i + 1;
        }
        ctx.push(DrawCmd::Restore);
        proof {
            assert(self.children@.take(self.children@.len() as int) =~= self.children@);
            assert(final(ctx).cmds@ =~= old(ctx).cmds@ + self.draw_cmds_spec());
        }
    }
}

/// Appending one shape to a list appends its commands to the list's.
pub proof fn lemma_children_cmds_snoc(q: Seq<Shape>, x: Shape)
    ensures
        children_cmds_spec(q.push(x)) == children_cmds_spec(q) + shape_cmds_spec(x),
    decreases q.len(),
{
    if q.len() == 0 {
        assert(q.push(x)[0] == x);
        assert(q.push(x).drop_first() =~= Seq::<Shape>::empty());
        assert(children_cmds_spec(Seq::<Shape>::empty()) == Seq::<DrawCmd>::empty());
        assert(children_cmds_spec(q) == Seq::<DrawCmd>::empty());
        assert(children_cmds_spec(q.push(x)) =~= children_cmds_spec(q) + shape_cmds_spec(x));
    } else {
        assert(q.push(x).drop_first() =~= q.drop_first().push(x));
        assert(q.push(x)[0] == q[0]);
        lemma_children_cmds_snoc(q.drop_first(), x);
        assert(children_cmds_spec(q.push(x)) == shape_cmds_spec(q[0]) + children_cmds_spec(
            q.drop_first().push(x),
        ));
        assert(children_cmds_spec(q.push(x)) =~= children_cmds_spec(q) + shape_cmds_spec(x));
    }
}


impl LineArrow {
    /// Append a child shape on top of the child stack.
    pub fn add(&mut self, child: Shape)
        ensures
            final(self).children@ == old(self).children@.push(child),
            *final(self) == (LineArrow { children: final(self).children, ..*old(self) }),
    {
        self.children.push(child);
    }

    /// Remove and return the child at `index`; `None` when `index` is
    /// out of bounds, including exactly at the length.
    pub fn remove(&mut self, index: usize) -> (r: Option<Shape>)
        ensures
            index < old(self).children@.len() ==> r == Some(old(self).children@[index as int])
                && final(self).children@ == old(self).children@.remove(index as int),
            index >= old(self).children@.len() ==> r == None::<Shape> && *final(self) == *old(
                self,
            ),
            *final(self) == (LineArrow { children: final(self).children, ..*old(self) }),
    {
        if index >= self.children.len() {
            None
        } else {
            Some(self.children.remove(index))
        }
    }

    pub fn get_children(&self) -> (r: &Vec<Shape>)
        ensures
            r == &self.children,
    {
        &self.children
    }

    pub fn get_mut_children(&mut self) -> (r: &mut Vec<Shape>)
        ensures
            *r == old(self).children,
            *final(self) == (LineArrow { children: *final(r), ..*old(self) }),
    {
        &mut self.children
    }

    pub fn set_children(&mut self, children: Vec<Shape>)
        ensures
            *final(self) == (LineArrow { children, ..*old(self) }),
    {
        self.children = children;
    }
}

impl Order for LineArrow {
    open spec fn order_children(&self) -> Seq<Shape> {
        self.children@
    }

    fn move_child_forward(&mut self, index: usize) -> (r: bool)
        ensures
            r == (index + 1 < old(self).children@.len()),
            r ==> final(self).children@ == crate::zorder::swap_at(
                old(self).children@,
                index as int,
            ),
            !r ==> final(self).children@ == old(self).children@,
            *final(self) == (LineArrow { children: final(self).children, ..*old(self) }),
    {
        crate::zorder::move_child_forward(&mut self.children, index)
    }

    fn move_child_backward(&mut self, index: usize) -> (r: bool)
        ensures
            r == (1 <= index && index < old(self).children@.len()),
            r ==> final(self).children@ == crate::zorder::swap_at(old(self).children@, index - 1),
            !r ==> final(self).children@ == old(self).children@,
            *final(self) == (LineArrow { children: final(self).children, ..*old(self) }),
    {
        crate::zorder::move_child_backward(&mut self.children, index)
    }

    fn move_child_to_front(&mut self, index: usize) -> (r: bool)
        ensures
            r == (index + 1 < old(self).children@.len()),
            r ==> final(self).children@ == old(self).children@.remove(index as int).push(
                old(self).children@[index as int],
            ),
            !r ==> final(self).children@ == old(self).children@,
            *final(self) == (LineArrow { children: final(self).children, ..*old(self) }),
    {
        crate::zorder::move_child_to_front(&mut self.children, index)
    }

    fn move_child_to_rear(&mut self, index: usize) -> (r: bool)
        ensures
            r == (1 <= index && index < old(self).children@.len()),
            r ==> final(self).children@ == old(self).children@.remove(index as int).insert(
                0,
                old(self).children@[index as int],
            ),
            !r ==> final(self).children@ == old(self).children@,
            *final(self) == (LineArrow { children: final(self).children, ..*old(self) }),
    {
        crate::zorder::move_child_to_rear(&mut self.children, index)
    }

    fn move_selected_children_forward(&mut self)
        ensures
            final(self).children@ == crate::zorder::move_selected_forward_spec(
                old(self).children@,
            ),
            *final(self) == (LineArrow { children: final(self).children, ..*old(self) }),
    {
        proof {
            crate::zorder::lemma_fwd_pass_len(old(self).children@, (old(self).children@.len() - 1) as nat);
        }
        crate::zorder::move_selected_children_forward(&mut self.children)
    }

    fn move_selected_children_backward(&mut self)
        ensures
            final(self).children@ == crate::zorder::move_selected_backward_spec(
                old(self).children@,
            ),
            *final(self) == (LineArrow { children: final(self).children, ..*old(self) }),
    {
        proof {
            crate::zorder::lemma_bwd_pass_len(old(self).children@, 1);
        }
        crate::zorder::move_selected_children_backward(&mut self.children)
    }

    fn move_selected_children_to_front(&mut self)
        ensures
            final(self).children@ == old(self).children@.filter(crate::zorder::unsel_pred())
                + old(self).children@.filter(crate::zorder::sel_pred()),
            *final(self) == (LineArrow { children: final(self).children, ..*old(self) }),
    {
        proof {
            crate::zorder::lemma_sel_partition_len(old(self).children@);
        }
        crate::zorder::move_selected_children_to_front(&mut self.children)
    }

    fn move_selected_children_to_rear(&mut self)
        ensures
            final(self).children@ == old(self).children@.filter(crate::zorder::sel_pred())
                + old(self).children@.filter(crate::zorder::unsel_pred()),
            *final(self) == (LineArrow { children: final(self).children, ..*old(self) }),
    {
        proof {
            crate::zorder::lemma_sel_partition_len(old(self).children@);
        }
        crate::zorder::move_selected_children_to_rear(&mut self.children)
    }
}

} // verus!
