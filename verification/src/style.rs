//! Stroke style data: colors with 8-bit channels, line caps, joins and
//! dash patterns.  These are plain owned values; the rendering sink
//! receives them verbatim through the draw-command stream.

use vstd::prelude::*;

verus! {

/// An opaque color with 8-bit channels.
#[derive(Clone, Copy, PartialEq, Eq, Structural, Debug)]
pub struct RgbColor {
    pub red: u8,
    pub green: u8,
    pub blue: u8,
}

impl RgbColor {
    pub fn new(red: u8, green: u8, blue: u8) -> (r: RgbColor)
        ensures
            r == (RgbColor { red, green, blue }),
    {
        RgbColor { red, green, blue }
    }
}

/// A color with an alpha channel; `alpha == 0` renders nothing.
#[derive(Clone, Copy, PartialEq, Eq, Structural, Debug)]
pub struct RgbaColor {
    pub color: RgbColor,
    pub alpha: u8,
}

impl RgbaColor {
    pub fn new(red: u8, green: u8, blue: u8, alpha: u8) -> (r: RgbaColor)
        ensures
            r == (RgbaColor { color: RgbColor { red, green, blue }, alpha }),
    {
        RgbaColor { color: RgbColor { red, green, blue }, alpha }
    }
}

/// How a stroke ends at an endpoint.
#[derive(Clone, Copy, PartialEq, Eq, Structural, Debug)]
pub enum LineCap {
    Butt,
    Round,
    Square,
}

/// How two stroke pieces join at a corner.
#[derive(Clone, Copy, PartialEq, Eq, Structural, Debug)]
pub enum LineJoin {
    Miter,
    Round,
    Bevel,
}

} // verus!
