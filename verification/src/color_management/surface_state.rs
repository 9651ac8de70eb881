//! Per-surface color-management state.
//!
//! [`ColorManagementSurfaceCachedState`] is the double-buffered record of what a client
//! asked for: requests write to the pending copy, and a commit of the surface makes the
//! pending copy current. [`ColorManagementSurfaceData`] marks whether a
//! `wp_color_management_surface_v1` is attached to the surface.
use std::sync::Arc;

use vstd::prelude::*;

use crate::attachment::{slot_after, SlotOp};
use crate::cached_state::Cacheable;
use crate::color_management::description::ImageDescription;
use crate::protocol::RenderIntent;

verus! {

/// Per-surface double-buffered color-management state.
#[derive(Debug)]
pub struct ColorManagementSurfaceCachedState {
    /// The description the client most recently set, or `None` if it was never set or has
    /// been unset. The compositor then treats the surface as default sRGB.
    pub description: Option<Arc<ImageDescription>>,
    /// Render intent paired with `description`.
    pub render_intent: RenderIntent,
}

impl ColorManagementSurfaceCachedState {
    /// The state of a surface that has no description.
    pub open spec fn unset() -> Self {
        ColorManagementSurfaceCachedState {
            description: None,
            render_intent: RenderIntent::Perceptual,
        }
    }

    /// Creates state with no description.
    pub fn new() -> (state: Self)
        ensures
            state == Self::unset(),
    {
        ColorManagementSurfaceCachedState {
            description: None,
            render_intent: RenderIntent::Perceptual,
        }
    }
}

impl Cacheable for ColorManagementSurfaceCachedState {
    fn commit(&mut self) -> (snapshot: Self) {
        self.clone()
    }

    fn merge_into(self, into: &mut Self) {
        *into = self;
    }
}

impl Clone for ColorManagementSurfaceCachedState {
    fn clone(&self) -> (copy: Self)
        ensures
            copy == *self,
    {
        ColorManagementSurfaceCachedState {
            description: match &self.description {
                Some(description) => Some(Arc::clone(description)),
                None => None,
            },
            render_intent: self.render_intent,
        }
    }
}

impl Default for ColorManagementSurfaceCachedState {
    fn default() -> (state: Self)
        ensures
            state == Self::unset(),
    {
        Self::new()
    }
}

/// Marks whether a `wp_color_management_surface_v1` is attached to a surface.
///
/// The view is `true` while one is.
#[derive(Debug)]
pub struct ColorManagementSurfaceData {
    is_resource_attached: bool,
}

impl View for ColorManagementSurfaceData {
    type V = bool;

    closed spec fn view(&self) -> bool {
        self.is_resource_attached
    }
}

impl ColorManagementSurfaceData {
    /// Creates a marker with nothing attached.
    pub fn new() -> (data: Self)
        ensures
            !data@,
    {
        ColorManagementSurfaceData { is_resource_attached: false }
    }

    /// Checks the marker and sets it.
    ///
    /// Returns `true` if a resource was attached already (the caller posts `surface_exists`),
    /// `false` if this call took the slot.
    pub fn is_resource_attached_or_attach(&mut self) -> (already_attached: bool)
        ensures
            already_attached == old(self)@,
            final(self)@ == slot_after(SlotOp::Attach),
    {
        let already_attached = self.is_resource_attached;
        self.is_resource_attached = true;
        already_attached
    }

    /// Clears the marker, so that a resource can be attached again.
    pub fn detach(&mut self)
        ensures
            final(self)@ == slot_after(SlotOp::Detach),
    {
        self.is_resource_attached = false;
    }
}

impl Default for ColorManagementSurfaceData {
    fn default() -> (data: Self)
        ensures
            !data@,
    {
        Self::new()
    }
}

/// Where nothing is set there is no description, and the intent is the perceptual one.
pub proof fn lemma_unset_state()
    ensures
        ColorManagementSurfaceCachedState::unset().description is None,
        ColorManagementSurfaceCachedState::unset().render_intent is Perceptual,
{
}

} // verus!
