//! Which view of the application the user is in; the window shell picks
//! its widgets by this state.

use vstd::prelude::*;

verus! {

#[derive(Clone, Copy, PartialEq, Eq, Structural, Debug)]
pub enum ViewMode {
    StartUp,
    CreatingWork,
    ImportingWork,
    Editing,
    Previewing,
    Preferences,
}

impl ViewMode {
    /// The label the shell uses to pick the matching widget stack.
    pub fn label(&self) -> (r: &'static str)
        ensures
            *self == ViewMode::StartUp ==> r@ == "StartUp"@,
            *self == ViewMode::CreatingWork ==> r@ == "CreatingWork"@,
            *self == ViewMode::ImportingWork ==> r@ == "ImportingWork"@,
            *self == ViewMode::Editing ==> r@ == "Editing"@,
            *self == ViewMode::Previewing ==> r@ == "Previewing"@,
            *self == ViewMode::Preferences ==> r@ == "Preferences"@,
    {
        match self {
            ViewMode::StartUp => "StartUp",
            ViewMode::CreatingWork => "CreatingWork",
            ViewMode::ImportingWork => "ImportingWork",
            ViewMode::Editing => "Editing",
            ViewMode::Previewing => "Previewing",
            ViewMode::Preferences => "Preferences",
        }
    }
}

} // verus!
