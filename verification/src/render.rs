//! The session's model of the rendering-engine boundary.
//!
//! The real engine rasterizes scenes into pixels and is out of the
//! coordinator's scope; what the coordinator depends on — and what this
//! model states — is only the boundary behaviour the session drives:
//! the engine records the target dimensions it was initialized or resized
//! to, a layout pass records the viewport and shape collection it was
//! handed and fails when the viewport is unusable, and a full render pass
//! records its inputs and whether a cached surface image was requested.
//! Drawn pixels are a side effect on the engine's own target surface and
//! have no observable trace here beyond those records.

use crate::shapes::Shape;
use crate::viewbox::Viewbox;
use std::collections::HashMap;
use vstd::prelude::*;

verus! {

/// A layout or render pass failed inside the engine.
#[derive(Clone, Copy, PartialEq, Eq, Structural, Debug)]
pub enum RenderError {
    /// The viewport handed to the pass cannot drive a layout computation.
    InvalidViewport,
}

/// Whether the engine's layout computation can run on this viewport:
/// it needs a target surface of positive pixel dimensions.
pub open spec fn viewbox_valid(v: Viewbox) -> bool {
    v.width > 0 && v.height > 0
}

/// The engine handle a session owns: the recorded target dimensions and
/// the inputs of the last layout and render passes.
///
/// The engine's internal graphics state is not thread safe, so a value of
/// this type must only ever be driven from one logical thread at a time;
/// the session that owns it inherits the same constraint.
pub struct RenderState {
    /// Width of the target surface the engine draws into.
    pub width: i32,
    /// Height of the target surface the engine draws into.
    pub height: i32,
    /// Viewport of the last successful layout pass, if any.
    pub last_layout_viewbox: Option<Viewbox>,
    /// Shape collection handed to the last successful layout pass.
    pub last_layout_shapes: Ghost<Option<Map<u128, Shape>>>,
    /// Viewport of the last full render pass, if any.
    pub last_render_viewbox: Option<Viewbox>,
    /// Shape collection handed to the last full render pass.
    pub last_render_shapes: Ghost<Option<Map<u128, Shape>>>,
    /// Whether the last render pass retained a cached bitmap of the
    /// rendered surface.
    pub cached_surface_image: bool,
}

/// The engine handle a fresh surface of the given dimensions starts
/// with: no pass has run yet and no cached image exists.
pub open spec fn spec_initial_render_state(width: i32, height: i32) -> RenderState {
    RenderState {
        width,
        height,
        last_layout_viewbox: None,
        last_layout_shapes: Ghost(None),
        last_render_viewbox: None,
        last_render_shapes: Ghost(None),
        cached_surface_image: false,
    }
}

impl RenderState {
    /// Initializes an engine handle for a target surface of the given
    /// dimensions.
    pub fn new(width: i32, height: i32) -> (r: RenderState)
        ensures
            r == spec_initial_render_state(width, height),
    {
        RenderState {
            width,
            height,
            last_layout_viewbox: None,
            last_layout_shapes: Ghost(None),
            last_render_viewbox: None,
            last_render_shapes: Ghost(None),
            cached_surface_image: false,
        }
    }

    /// Retargets the engine to new surface dimensions, keeping every pass
    /// record as it was.
    pub fn resize(&mut self, width: i32, height: i32)
        ensures
            *final(self) == (RenderState { width, height, ..*old(self) }),
    {
        self.width = width;
        self.height = height;
    }

    /// Runs a layout pass over the given viewport and shape collection,
    /// recomputing visibility information without drawing a frame.
    ///
    /// Fails, leaving the engine untouched, exactly when the viewport
    /// cannot drive the layout computation.
    pub fn navigate(&mut self, viewbox: &Viewbox, shapes: &HashMap<u128, Shape>) -> (r: Result<
        (),
        RenderError,
    >)
        ensures
            r is Ok <==> viewbox_valid(*viewbox),
            r is Ok ==> *final(self) == (RenderState {
                last_layout_viewbox: Some(*viewbox),
                last_layout_shapes: Ghost(Some(shapes@)),
                ..*old(self)
            }),
            r is Err ==> *final(self) == *old(self) && r == Err::<(), RenderError>(
                RenderError::InvalidViewport,
            ),
    {
        if viewbox.width > 0 && viewbox.height > 0 {
            self.last_layout_viewbox = Some(*viewbox);
            self.last_layout_shapes = Ghost(Some(shapes@));
            Ok(())
        } else {
            Err(RenderError::InvalidViewport)
        }
    }

    /// Runs a full render pass over the given viewport and shape
    /// collection. The flag says whether the engine retains a cached
    /// bitmap of the rendered surface for later partial redraws; it has
    /// no other observable effect.
    pub fn render_all(
        &mut self,
        viewbox: &Viewbox,
        shapes: &HashMap<u128, Shape>,
        generate_cached_surface_image: bool,
    )
        ensures
            *final(self) == (RenderState {
                last_render_viewbox: Some(*viewbox),
                last_render_shapes: Ghost(Some(shapes@)),
                cached_surface_image: generate_cached_surface_image,
                ..*old(self)
            }),
    {
        self.last_render_viewbox = Some(*viewbox);
        self.last_render_shapes = Ghost(Some(shapes@));
        self.cached_surface_image = generate_cached_surface_image;
    }
}

} // verus!
