//! Scene graph and interactive editing engine of a vector-annotation
//! editor: pages hold layers of shapes, each shape a straight or curved
//! line-arrow with handles, hit testing, z-order and multi-click creation
//! state machines.  All geometry is carried in integer document units so
//! that every computation here is exact and verified.

use vstd::prelude::*;

pub mod capability;
pub mod context;
pub mod document;
pub mod error;
pub mod events;
pub mod filename;
pub mod geometry;
pub mod layer;
pub mod page;
pub mod line_arrow;
pub mod shape;
pub mod style;
pub mod viewmode;
pub mod zorder;

verus! {

} // verus!
