//! Per-surface color-representation state.
//!
//! [`ColorRepresentationSurfaceCachedState`] is the double-buffered record of what a client
//! declared: requests write to the pending copy, and a commit of the surface makes the
//! pending copy current. [`ColorRepresentationSurfaceData`] marks whether a
//! `wp_color_representation_surface_v1` is attached to the surface.
use vstd::prelude::*;

use crate::attachment::{slot_after, SlotOp};
use crate::cached_state::Cacheable;
use crate::protocol::{AlphaMode, ChromaLocation, Coefficients, Range};

verus! {

/// Per-surface double-buffered color-representation state.
///
/// `None` stands for a property that the client has not set. A renderer that needs it falls
/// back to the default that the pixel format implies.
#[derive(Debug)]
pub struct ColorRepresentationSurfaceCachedState {
    /// How the buffer's color is multiplied by its alpha.
    pub alpha_mode: Option<AlphaMode>,
    /// The coefficients of YCbCr formats.
    pub coefficients: Option<Coefficients>,
    /// The value range of YCbCr formats.
    pub range: Option<Range>,
    /// The chroma location of sub-sampled YCbCr formats.
    pub chroma_location: Option<ChromaLocation>,
}

impl ColorRepresentationSurfaceCachedState {
    /// The state of a surface whose client has set nothing.
    pub open spec fn unset() -> Self {
        ColorRepresentationSurfaceCachedState {
            alpha_mode: None,
            coefficients: None,
            range: None,
            chroma_location: None,
        }
    }
}

impl Cacheable for ColorRepresentationSurfaceCachedState {
    fn commit(&mut self) -> (snapshot: Self) {
        self.clone()
    }

    fn merge_into(self, into: &mut Self) {
        *into = self;
    }
}

impl Clone for ColorRepresentationSurfaceCachedState {
    fn clone(&self) -> (copy: Self)
        ensures
            copy == *self,
    {
        ColorRepresentationSurfaceCachedState {
            alpha_mode: self.alpha_mode,
            coefficients: self.coefficients,
            range: self.range,
            chroma_location: self.chroma_location,
        }
    }
}

impl Default for ColorRepresentationSurfaceCachedState {
    fn default() -> (state: Self)
        ensures
            state == Self::unset(),
    {
        ColorRepresentationSurfaceCachedState {
            alpha_mode: None,
            coefficients: None,
            range: None,
            chroma_location: None,
        }
    }
}

/// Marks whether a `wp_color_representation_surface_v1` is attached to a surface.
///
/// The view is `true` while one is.
#[derive(Debug)]
pub struct ColorRepresentationSurfaceData {
    is_resource_attached: bool,
}

impl View for ColorRepresentationSurfaceData {
    type V = bool;

    closed spec fn view(&self) -> bool {
        self.is_resource_attached
    }
}

impl ColorRepresentationSurfaceData {
    /// Creates a marker with nothing attached.
    pub fn new() -> (data: Self)
        ensures
            !data@,
    {
        ColorRepresentationSurfaceData { is_resource_attached: false }
    }

    /// Checks the marker and sets it.
    ///
    /// Returns `true` if a resource was attached already (the caller posts `surface_exists`),
    /// `false` if this call took the slot.
    pub fn is_resource_attached_or_attach(&mut self) -> (already_attached: bool)
        ensures
            already_attached == old(self)@,
            final(self)@ == slot_after(SlotOp::Attach),
    {
        let already_attached = self.is_resource_attached;
        self.is_resource_attached = true;
        already_attached
    }

    /// Clears the marker, so that a resource can be attached again.
    pub fn detach(&mut self)
        ensures
            final(self)@ == slot_after(SlotOp::Detach),
    {
        self.is_resource_attached = false;
    }
}

impl Default for ColorRepresentationSurfaceData {
    fn default() -> (data: Self)
        ensures
            !data@,
    {
        Self::new()
    }
}

/// Where nothing is set every property is open.
pub proof fn lemma_unset_state()
    ensures
        ColorRepresentationSurfaceCachedState::unset().alpha_mode is None,
        ColorRepresentationSurfaceCachedState::unset().coefficients is None,
        ColorRepresentationSurfaceCachedState::unset().range is None,
        ColorRepresentationSurfaceCachedState::unset().chroma_location is None,
{
}

} // verus!
