//! The capability contracts shared by everything selectable, flippable,
//! rotatable or reorderable in the scene.  The concrete catalog is the
//! [`crate::shape::Shape`] enum, so most capabilities are plain methods
//! dispatched by match; these traits state the behaviour that is common
//! to every implementor, and each implementation strengthens them with an
//! exact contract.

use vstd::prelude::*;

use crate::shape::Shape;

verus! {

/// Selection state with idempotent `select`/`unselect` and an involutive
/// toggle.
pub trait Select {
    /// The selection flag this capability controls.
    spec fn sel_spec(&self) -> bool;

    fn is_selected(&self) -> (r: bool)
        ensures
            r == self.sel_spec(),
    ;

    fn select(&mut self)
        ensures
            final(self).sel_spec(),
    ;

    fn unselect(&mut self)
        ensures
            !final(self).sel_spec(),
    ;

    fn toggle_select(&mut self) -> (r: bool)
        ensures
            final(self).sel_spec() == !old(self).sel_spec(),
            r == final(self).sel_spec(),
    ;
}

/// Mirroring a shape about its own center.
pub trait Flip {
    /// What a flip needs of the state: for shapes, geometry within the
    /// scene coordinate range.
    spec fn flip_ok(&self) -> bool;

    fn flip_vertical(&mut self)
        requires
            old(self).flip_ok(),
        ensures
            final(self).flip_ok(),
    ;

    fn flip_horizontal(&mut self)
        requires
            old(self).flip_ok(),
        ensures
            final(self).flip_ok(),
    ;
}

/// Quarter-turn rotation of a shape about its own center.
pub trait Rotate {
    /// What a counterclockwise quarter turn needs of the state:
    /// geometry within range, with room for the rotated endpoints.
    spec fn rotate_left_allowed(&self) -> bool;

    /// The same for a clockwise quarter turn.
    spec fn rotate_right_allowed(&self) -> bool;

    fn rotate_left(&mut self)
        requires
            old(self).rotate_left_allowed(),
    ;

    fn rotate_right(&mut self)
        requires
            old(self).rotate_right_allowed(),
    ;
}

/// Reordering an ordered child list: index 0 paints first (bottom), the
/// last child paints last (top) and receives events first.
pub trait Order {
    /// The child list the reordering acts on.
    spec fn order_children(&self) -> Seq<Shape>;

    fn move_child_forward(&mut self, index: usize) -> (r: bool)
        ensures
            final(self).order_children().len() == old(self).order_children().len(),
    ;

    fn move_child_backward(&mut self, index: usize) -> (r: bool)
        ensures
            final(self).order_children().len() == old(self).order_children().len(),
    ;

    fn move_child_to_front(&mut self, index: usize) -> (r: bool)
        ensures
            final(self).order_children().len() == old(self).order_children().len(),
    ;

    fn move_child_to_rear(&mut self, index: usize) -> (r: bool)
        ensures
            final(self).order_children().len() == old(self).order_children().len(),
    ;

    fn move_selected_children_forward(&mut self)
        ensures
            final(self).order_children().len() == old(self).order_children().len(),
    ;

    fn move_selected_children_backward(&mut self)
        ensures
            final(self).order_children().len() == old(self).order_children().len(),
    ;

    fn move_selected_children_to_front(&mut self)
        ensures
            final(self).order_children().len() == old(self).order_children().len(),
    ;

    fn move_selected_children_to_rear(&mut self)
        ensures
            final(self).order_children().len() == old(self).order_children().len(),
    ;
}

} // verus!
