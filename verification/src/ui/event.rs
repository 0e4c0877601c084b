//! Events that a window reports to the user interface.
use vstd::prelude::*;

verus! {

/// A change to a window.
#[derive(Clone, Copy, Debug, PartialEq, Eq, Structural)]
pub enum WindowEvent {
    Resize,
    ModeChange { width: i16, height: i16 },
    Destroy,
}

} // verus!
