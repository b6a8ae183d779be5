//! The rendering adapter: a viewport transform over an abstract vector
//! sink.  Drawing is recorded as a stream of plain commands in user-space
//! coordinates; whoever owns the real surface applies the transform and
//! replays the stream.  The transform also maps pointer positions between
//! device space and user space.

use vstd::prelude::*;

use crate::geometry::{
    ext_coord_in_range, floor_div, rect_wf, vector_in_range, Point, Rectangle, Vector,
};
use crate::style::{LineCap, LineJoin, RgbColor, RgbaColor};

verus! {

/// Smallest and largest zoom, in percent of natural size.
pub const ZOOM_MIN: u32 = 1;

pub const ZOOM_MAX: u32 = 6400;

/// The viewport transform: first scale user coordinates by
/// `zoom_percent / 100`, then shift by `translate` (device units).
#[derive(Clone, Copy, PartialEq, Eq, Structural, Debug)]
pub struct Transform {
    pub translate: Vector,
    pub zoom_percent: u32,
}

pub open spec fn transform_wf(t: Transform) -> bool {
    &&& vector_in_range(t.translate)
    &&& ZOOM_MIN <= t.zoom_percent <= ZOOM_MAX
}

/// A user-space x (or y) coordinate mapped to device space.
pub open spec fn to_device_spec(t: Transform, u: int, shift: int) -> int {
    (u * t.zoom_percent) / 100 + shift
}

/// A device-space x (or y) coordinate mapped back to user space.
pub open spec fn to_user_spec(t: Transform, d: int, shift: int) -> int {
    ((d - shift) * 100) / (t.zoom_percent as int)
}

impl Transform {
    pub fn new(translate: Vector, zoom_percent: u32) -> (r: Transform)
        requires
            vector_in_range(translate),
            ZOOM_MIN <= zoom_percent <= ZOOM_MAX,
        ensures
            r == (Transform { translate, zoom_percent }),
            transform_wf(r),
    {
        Transform { translate, zoom_percent }
    }

    /// Map a user-space point to device space.
    pub fn user_to_device(&self, p: Point) -> (r: Point)
        requires
            transform_wf(*self),
            ext_coord_in_range(p.x as int),
            ext_coord_in_range(p.y as int),
        ensures
            r.x == to_device_spec(*self, p.x as int, self.translate.x as int),
            r.y == to_device_spec(*self, p.y as int, self.translate.y as int),
    {
        proof {
            assert(-0x2_0000 * 6400 <= p.x * self.zoom_percent <= 0x2_0000 * 6400
                && -0x2_0000 * 6400 <= p.y * self.zoom_percent <= 0x2_0000 * 6400)
                by (nonlinear_arith)
                requires
                    -0x2_0000 <= p.x <= 0x2_0000,
                    -0x2_0000 <= p.y <= 0x2_0000,
                    1 <= self.zoom_percent <= 6400;
        }
        let zx = floor_div(p.x * (self.zoom_percent as i64), 100);
        let zy = floor_div(p.y * (self.zoom_percent as i64), 100);
        proof {
            assert(-0x2_0000 * 64 <= zx <= 0x2_0000 * 64 && -0x2_0000 * 64 <= zy <= 0x2_0000 * 64)
                by (nonlinear_arith)
                requires
                    zx == (p.x * self.zoom_percent) as int / 100,
                    zy == (p.y * self.zoom_percent) as int / 100,
                    -0x2_0000 * 6400 <= p.x * self.zoom_percent <= 0x2_0000 * 6400,
                    -0x2_0000 * 6400 <= p.y * self.zoom_percent <= 0x2_0000 * 6400;
        }
        Point { x: zx + self.translate.x, y: zy + self.translate.y }
    }

    /// Map a user-space rectangle to device space.  The transform is
    /// monotone, so mapping the two corners maps the rectangle.
    pub fn user_to_device_rect(&self, r: &Rectangle) -> (o: Rectangle)
        requires
            transform_wf(*self),
            rect_wf(*r),
            ext_coord_in_range(r.min_x as int),
            ext_coord_in_range(r.min_y as int),
            ext_coord_in_range(r.max_x as int),
            ext_coord_in_range(r.max_y as int),
        ensures
            o.min_x == to_device_spec(*self, r.min_x as int, self.translate.x as int),
            o.min_y == to_device_spec(*self, r.min_y as int, self.translate.y as int),
            o.max_x == to_device_spec(*self, r.max_x as int, self.translate.x as int),
            o.max_y == to_device_spec(*self, r.max_y as int, self.translate.y as int),
            rect_wf(o),
    {
        let mins = self.user_to_device(Point { x: r.min_x, y: r.min_y });
        let maxs = self.user_to_device(Point { x: r.max_x, y: r.max_y });
        proof {
            let z = self.zoom_percent as int;
            assert(r.min_x * z <= r.max_x * z && r.min_y * z <= r.max_y * z)
                by (nonlinear_arith)
                requires
                    r.min_x <= r.max_x,
                    r.min_y <= r.max_y,
                    0 < z;
            vstd::arithmetic::div_mod::lemma_div_is_ordered(
                r.min_x * z, r.max_x * z, 100);
            vstd::arithmetic::div_mod::lemma_div_is_ordered(
                r.min_y * z, r.max_y * z, 100);
        }
        Rectangle { min_x: mins.x, min_y: mins.y, max_x: maxs.x, max_y: maxs.y }
    }

    /// Map a device-space point back to user space.  The result is not
    /// clamped; callers bound it before handing it to shape logic.
    pub fn device_to_user(&self, p: Point) -> (r: Point)
        requires
            transform_wf(*self),
            -0x1000_0000 <= p.x <= 0x1000_0000,
            -0x1000_0000 <= p.y <= 0x1000_0000,
        ensures
            r.x == to_user_spec(*self, p.x as int, self.translate.x as int),
            r.y == to_user_spec(*self, p.y as int, self.translate.y as int),
    {
        let dx: i64 = p.x - self.translate.x;
        let dy: i64 = p.y - self.translate.y;
        let ux = floor_div(dx * 100, self.zoom_percent as u64);
        let uy = floor_div(dy * 100, self.zoom_percent as u64);
        Point { x: ux, y: uy }
    }
}

/// One step of the recorded drawing: path construction, style changes and
/// stroke or fill execution, all in user-space coordinates.  `SetDash`
/// carries the leading on/off pair of the dash pattern (zeros for a solid
/// stroke) and the dash offset.
#[derive(Clone, Copy, PartialEq, Eq, Structural, Debug)]
pub enum DrawCmd {
    Save,
    Restore,
    NewPath,
    ClosePath,
    MoveTo(Point),
    LineTo(Point),
    CurveTo(Point, Point, Point),
    Circle(Point, i64),
    RectPath(Rectangle),
    SetColor(RgbColor),
    SetColorAlpha(RgbaColor),
    SetWidth(u32),
    SetDash(u32, u32, u32),
    SetCap(LineCap),
    SetJoin(LineJoin),
    Stroke,
    StrokePreserve,
    Fill,
    FillPreserve,
}

/// The recording context a draw pass writes into: the active transform
/// and the commands recorded so far.
pub struct RenderContext {
    pub transform: Transform,
    pub cmds: Vec<DrawCmd>,
}

impl RenderContext {
    pub fn new(translate: Vector, zoom_percent: u32) -> (r: RenderContext)
        requires
            vector_in_range(translate),
            ZOOM_MIN <= zoom_percent <= ZOOM_MAX,
        ensures
            r.transform == (Transform { translate, zoom_percent }),
            r.cmds@ == Seq::<DrawCmd>::empty(),
            transform_wf(r.transform),
    {
        RenderContext { transform: Transform { translate, zoom_percent }, cmds: Vec::new() }
    }

    /// Append one command to the recording.
    pub fn push(&mut self, cmd: DrawCmd)
        ensures
            final(self).transform == old(self).transform,
            final(self).cmds@ == old(self).cmds@.push(cmd),
    {
        self.cmds.push(cmd);
    }
}

} // verus!
