//! The per-surface session coordinator.
//!
//! A [`State`] owns the canonical shape collection, the current
//! selection, the viewport transform and the rendering-engine handle of
//! one surface, and sequences every host call into the engine. The
//! current shape is never cached as a live reference across calls: the
//! session stores only the selected identifier and resolves the entry on
//! demand, so a stale alias into the collection cannot exist.

use crate::render::{spec_initial_render_state, viewbox_valid, RenderError, RenderState};
use crate::shapes::{spec_new_shape, Shape};
use crate::viewbox::{spec_initial_viewbox, Viewbox};
use std::collections::HashMap;
use vstd::prelude::*;

verus! {

/// The session state between two host calls.
pub struct State {
    /// Handle to the rendering engine this session drives.
    pub render_state: RenderState,
    /// Identifier of the currently selected shape, if any.
    pub current_id: Option<u128>,
    /// The canonical shape collection, keyed by shape identifier. The
    /// session owns every shape exclusively.
    pub shapes: HashMap<u128, Shape>,
    /// The viewport transform of this surface.
    pub viewbox: Viewbox,
}

/// The mathematical value of a session: the same fields, with the shape
/// collection as a map.
#[verifier::ext_equal]
pub struct StateView {
    pub render_state: RenderState,
    pub current_id: Option<u128>,
    pub shapes: Map<u128, Shape>,
    pub viewbox: Viewbox,
}

impl View for State {
    type V = StateView;

    open spec fn view(&self) -> StateView {
        StateView {
            render_state: self.render_state,
            current_id: self.current_id,
            shapes: self.shapes@,
            viewbox: self.viewbox,
        }
    }
}

/// Selection consistency: whenever an identifier is selected, the
/// collection holds an entry for it, so resolving the current shape by
/// lookup always finds the selected entry.
pub open spec fn inv(s: StateView) -> bool {
    match s.current_id {
        Some(id) => s.shapes.contains_key(id),
        None => true,
    }
}

/// The session a fresh surface of the given dimensions starts with: an
/// engine initialized for those dimensions, the initial viewport, an
/// empty collection and no selection.
pub open spec fn spec_new(width: i32, height: i32) -> StateView {
    StateView {
        render_state: spec_initial_render_state(width, height),
        current_id: None,
        shapes: Map::empty(),
        viewbox: spec_initial_viewbox(width, height),
    }
}

/// The session after `use_shape(id)`: the collection gains a fresh shape
/// under `id` if it had none, is reused untouched otherwise, and `id`
/// becomes the selection. Nothing else moves.
pub open spec fn spec_use_shape(s: StateView, id: u128) -> StateView {
    StateView {
        current_id: Some(id),
        shapes: if s.shapes.contains_key(id) {
            s.shapes
        } else {
            s.shapes.insert(id, spec_new_shape(id))
        },
        ..s
    }
}

/// The session after `resize(width, height)`: the engine's target
/// dimensions and the viewport's dimensions both change, together, and
/// nothing else moves.
pub open spec fn spec_resize(s: StateView, width: i32, height: i32) -> StateView {
    StateView {
        render_state: RenderState { width, height, ..s.render_state },
        viewbox: Viewbox { width, height, ..s.viewbox },
        ..s
    }
}

/// The shape the session would hand out as the current one: the entry
/// under the selected identifier, or nothing when no identifier is
/// selected or the entry is missing.
pub open spec fn spec_current_shape(s: StateView) -> Option<Shape> {
    match s.current_id {
        Some(id) => if s.shapes.contains_key(id) {
            Some(s.shapes[id])
        } else {
            None
        },
        None => None,
    }
}

/// Selecting `id` always ends with `id` selected and with the current
/// shape resolving to the entry stored under `id`, whatever the session
/// looked like before.
pub proof fn lemma_use_shape_selects(s: StateView, id: u128)
    ensures
        spec_use_shape(s, id).current_id == Some(id),
        spec_use_shape(s, id).shapes.contains_key(id),
        spec_current_shape(spec_use_shape(s, id)) == Some(spec_use_shape(s, id).shapes[id]),
{
}

/// Selecting an identifier that is already present reuses the stored
/// shape: the whole collection is left exactly as it was.
pub proof fn lemma_use_shape_reuses(s: StateView, id: u128)
    requires
        s.shapes.contains_key(id),
    ensures
        spec_use_shape(s, id).shapes == s.shapes,
{
}

/// Selecting `id1`, then a different `id2`, then `id1` again resolves the
/// current shape to the very shape the first selection stored under
/// `id1`: reselection never duplicates or replaces it.
pub proof fn lemma_reselect_finds_original(s: StateView, id1: u128, id2: u128)
    requires
        id1 != id2,
    ensures
        ({
            let s1 = spec_use_shape(s, id1);
            let s3 = spec_use_shape(spec_use_shape(s1, id2), id1);
            spec_current_shape(s3) == Some(s1.shapes[id1])
        }),
{
}

/// Resizing twice to the same dimensions leaves the session exactly as
/// one resize does.
pub proof fn lemma_resize_idempotent(s: StateView, width: i32, height: i32)
    ensures
        spec_resize(spec_resize(s, width, height), width, height) == spec_resize(s, width, height),
{
}

/// A fresh session has no selection, so its current shape resolves to
/// nothing.
pub proof fn lemma_new_has_no_selection(width: i32, height: i32)
    ensures
        spec_current_shape(spec_new(width, height)) is None,
{
}

impl State {
    /// Creates the session for a fresh surface. `capacity` is a sizing
    /// hint for the shape collection and has no observable effect.
    pub fn new(width: i32, height: i32, capacity: usize) -> (s: State)
        ensures
            s@ == spec_new(width, height),
            inv(s@),
    {
        State {
            render_state: RenderState::new(width, height),
            current_id: None,
            shapes: HashMap::with_capacity(capacity),
            viewbox: Viewbox::new(width, height),
        }
    }

    /// Retargets the session to new surface dimensions: the engine and
    /// the viewport are updated together, never one without the other.
    pub fn resize(&mut self, width: i32, height: i32)
        ensures
            final(self)@ == spec_resize(old(self)@, width, height),
            inv(old(self)@) ==> inv(final(self)@),
    {
        self.render_state.resize(width, height);
        self.viewbox.set_wh(width, height);
    }

    /// Hands out the engine handle, for the host paths that read the
    /// engine's own surface directly.
    pub fn render_state(&mut self) -> (r: &mut RenderState)
        ensures
            *r == old(self).render_state,
            final(self).render_state == *final(r),
            final(self).current_id == old(self).current_id,
            final(self).shapes@ == old(self).shapes@,
            final(self).viewbox == old(self).viewbox,
    {
        &mut self.render_state
    }

    /// Runs a layout pass: the engine is handed this session's viewport
    /// and full shape collection. An engine failure is returned to the
    /// caller; the session and the engine are then unchanged.
    pub fn navigate(&mut self) -> (r: Result<(), RenderError>)
        ensures
            r is Ok <==> viewbox_valid(old(self)@.viewbox),
            r is Ok ==> final(self)@ == (StateView {
                render_state: RenderState {
                    last_layout_viewbox: Some(old(self)@.viewbox),
                    last_layout_shapes: Ghost(Some(old(self)@.shapes)),
                    ..old(self)@.render_state
                },
                ..old(self)@
            }),
            r is Err ==> *final(self) == *old(self) && r == Err::<(), RenderError>(
                RenderError::InvalidViewport,
            ),
            inv(old(self)@) ==> inv(final(self)@),
    {
        self.render_state.navigate(&self.viewbox, &self.shapes)
    }

    /// Runs a full render pass: the engine is handed this session's
    /// viewport and full shape collection, and the flag saying whether to
    /// retain a cached bitmap of the rendered surface.
    pub fn render_all(&mut self, generate_cached_surface_image: bool)
        ensures
            final(self)@ == (StateView {
                render_state: RenderState {
                    last_render_viewbox: Some(old(self)@.viewbox),
                    last_render_shapes: Ghost(Some(old(self)@.shapes)),
                    cached_surface_image: generate_cached_surface_image,
                    ..old(self)@.render_state
                },
                ..old(self)@
            }),
            inv(old(self)@) ==> inv(final(self)@),
    {
        self.render_state.render_all(&self.viewbox, &self.shapes, generate_cached_surface_image);
    }

    /// Selects `id`: inserts a fresh shape under `id` if the collection
    /// has none — an identifier already present keeps its shape untouched
    /// — and makes `id` the current selection.
    pub fn use_shape(&mut self, id: u128)
        ensures
            final(self)@ == spec_use_shape(old(self)@, id),
            inv(final(self)@),
    {
        if !self.shapes.contains_key(&id) {
            let new_shape = Shape::new(id);
            self.shapes.insert(id, new_shape);
        }
        self.current_id = Some(id);
    }

    /// Resolves the currently selected shape to a mutable reference into
    /// the collection, or nothing when no selection exists. Edits made
    /// through the reference land in the entry under the selected
    /// identifier; the selection, the viewport and the engine stay as
    /// they were.
    pub fn current_shape(&mut self) -> (r: Option<&mut Shape>)
        requires
            inv(old(self)@),
        ensures
            r is Some <==> old(self)@.current_id is Some,
            r is None ==> *final(self) == *old(self),
            r matches Some(v) ==> {
                &&& Some(*v) == spec_current_shape(old(self)@)
                &&& old(self)@.current_id matches Some(id) && final(self)@ == (StateView {
                    shapes: old(self)@.shapes.insert(id, *final(v)),
                    ..old(self)@
                })
            },
            inv(final(self)@),
    {
        match self.current_id {
            None => None,
            Some(id) => {
                let entry = self.shapes.entry(id);
                let shape = entry.or_insert(Shape::new(id));
                Some(shape)
            },
        }
    }
}

} // verus!
