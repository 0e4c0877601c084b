//! Sizes in screen pixels.
use vstd::prelude::*;

verus! {

/// The size of a window in screen pixels.
#[derive(Debug, Clone, Copy, PartialEq, Eq, Default, Structural)]
pub struct PhysicalSize {
    pub width: u16,
    pub height: u16,
}

impl PhysicalSize {
    pub fn new(width: u16, height: u16) -> (r: Self)
        ensures
            r == (PhysicalSize { width, height }),
    {
        Self { width, height }
    }
}

} // verus!
