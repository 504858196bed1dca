//! Per-session state coordinator for an interactive 2D rendering surface.
//!
//! A [`state::State`] owns the shape collection, the current selection,
//! the viewport transform and the rendering-engine handle for one surface,
//! and sequences every host call into the engine while keeping the
//! selection consistent with the collection.

pub mod math;
pub mod render;
pub mod shapes;
pub mod state;
pub mod viewbox;
