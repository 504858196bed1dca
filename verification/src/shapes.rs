//! The drawable entities the session coordinates.
//!
//! A shape is opaque to the coordinator: its geometry belongs to the
//! shape-model subsystem. The coordinator only creates a fresh shape for
//! an identifier on first selection, stores it under that identifier, and
//! hands out access to the stored value. Identifiers are 128-bit values,
//! the width the host's identifier scheme uses.

use crate::math::{rect_empty, Rect};
use vstd::prelude::*;

verus! {

/// One drawable entity, keyed in the session's collection by `id`.
///
/// `selrect` is the shape's selection rectangle; the coordinator never
/// reads it, but callers edit it through the current-shape access path,
/// so preserving it across reselections is observable behaviour.
#[derive(Clone, Copy, PartialEq, Eq, Structural, Debug)]
pub struct Shape {
    pub id: u128,
    pub selrect: Rect,
}

/// The value a freshly constructed shape for `id` holds.
pub open spec fn spec_new_shape(id: u128) -> Shape {
    Shape { id, selrect: rect_empty() }
}

impl Shape {
    /// Builds the fresh shape stored on first selection of `id`.
    pub fn new(id: u128) -> (s: Shape)
        ensures
            s == spec_new_shape(id),
    {
        Shape { id, selrect: Rect::new_empty() }
    }
}

} // verus!
