//! The viewport transform owned by the session.
//!
//! A viewbox carries the pan offset, the zoom factor, the pixel
//! dimensions of the target surface and a derived visible-area rectangle.
//! The coordinator itself only constructs the default transform and
//! updates the dimensions on resize; the camera-math subsystem owns every
//! other change, so pan, zoom and area are plain stored values here.

use crate::math::{rect_empty, Rect};
use vstd::prelude::*;

verus! {

/// The pan/zoom/dimension transform describing what part of the scene is
/// visible on the target surface.
#[derive(Clone, Copy, PartialEq, Eq, Structural, Debug)]
pub struct Viewbox {
    pub pan_x: i32,
    pub pan_y: i32,
    pub zoom: i32,
    pub width: i32,
    pub height: i32,
    pub area: Rect,
}

/// The transform a session starts with: zero pan, unit zoom, the given
/// surface dimensions and an empty visible area.
pub open spec fn spec_initial_viewbox(width: i32, height: i32) -> Viewbox {
    Viewbox { pan_x: 0, pan_y: 0, zoom: 1, width, height, area: rect_empty() }
}

impl Viewbox {
    /// Builds the initial transform for a surface of the given dimensions.
    pub fn new(width: i32, height: i32) -> (v: Viewbox)
        ensures
            v == spec_initial_viewbox(width, height),
    {
        Viewbox { pan_x: 0, pan_y: 0, zoom: 1, width, height, area: Rect::new_empty() }
    }

    /// Updates the surface dimensions in place, leaving pan, zoom and the
    /// visible area untouched.
    pub fn set_wh(&mut self, width: i32, height: i32)
        ensures
            *final(self) == (Viewbox { width, height, ..*old(self) }),
    {
        self.width = width;
        self.height = height;
    }
}

} // verus!
