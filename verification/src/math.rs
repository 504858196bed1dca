//! Rectangle values used by the viewport transform and by shapes.
//!
//! The coordinator never computes with a rectangle; it only creates the
//! empty one at construction time and stores whatever the host or the
//! geometry subsystem later writes into it.

use vstd::prelude::*;

verus! {

/// An axis-aligned rectangle in surface coordinates.
#[derive(Clone, Copy, PartialEq, Eq, Structural, Debug)]
pub struct Rect {
    pub left: i32,
    pub top: i32,
    pub right: i32,
    pub bottom: i32,
}

/// The empty rectangle: every coordinate is zero.
pub open spec fn rect_empty() -> Rect {
    Rect { left: 0, top: 0, right: 0, bottom: 0 }
}

impl Rect {
    /// Builds the empty rectangle.
    pub fn new_empty() -> (r: Rect)
        ensures
            r == rect_empty(),
    {
        Rect { left: 0, top: 0, right: 0, bottom: 0 }
    }
}

} // verus!
