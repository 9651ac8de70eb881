use std::sync::Arc;

use smithay_color::cached_state::CachedState;
use smithay_color::color_management::{
    ColorManagementSurfaceCachedState, ColorManagementSurfaceData, ImageDescriptionInterner,
};
use smithay_color::color_representation::{
    ColorRepresentationSurfaceCachedState, ColorRepresentationSurfaceData,
};
use smithay_color::protocol::{AlphaMode, RenderIntent};

#[test]
fn cached_state_default_has_no_description() {
    let state = ColorManagementSurfaceCachedState::new();
    assert!(state.description.is_none());
    assert_eq!(state.render_intent, RenderIntent::Perceptual);
}

#[test]
fn surface_data_attach_is_one_shot_until_detach() {
    let mut data = ColorManagementSurfaceData::new();

    // First attach succeeds (returns false = "was not attached before").
    assert!(!data.is_resource_attached_or_attach());

    // Second attempt sees it already attached.
    assert!(data.is_resource_attached_or_attach());

    // After detach, attach succeeds again.
    data.detach();
    assert!(!data.is_resource_attached_or_attach());
}

#[test]
fn cached_state_default_all_none() {
    let state = ColorRepresentationSurfaceCachedState::default();
    assert!(state.alpha_mode.is_none());
    assert!(state.coefficients.is_none());
    assert!(state.range.is_none());
    assert!(state.chroma_location.is_none());
}

#[test]
fn surface_data_attach_one_shot() {
    let mut data = ColorRepresentationSurfaceData::new();
    assert!(!data.is_resource_attached_or_attach()); // first attach succeeds
    assert!(data.is_resource_attached_or_attach()); // second sees already-attached
    data.detach();
    assert!(!data.is_resource_attached_or_attach()); // after detach, attach again
}

#[test]
fn markers_start_detached_by_default() {
    assert!(!ColorManagementSurfaceData::default().is_resource_attached_or_attach());
    assert!(!ColorRepresentationSurfaceData::default().is_resource_attached_or_attach());
}

#[test]
fn detach_of_a_free_slot_leaves_it_free() {
    let mut data = ColorManagementSurfaceData::new();
    data.detach();
    assert!(!data.is_resource_attached_or_attach());
}

#[test]
fn cached_state_default_equals_new() {
    let state = ColorManagementSurfaceCachedState::default();
    assert!(state.description.is_none());
    assert_eq!(state.render_intent, RenderIntent::Perceptual);
}

#[test]
fn writes_wait_for_a_commit() {
    let srgb = ImageDescriptionInterner::new().srgb_default();
    let mut state = CachedState::new(
        ColorManagementSurfaceCachedState::new(),
        ColorManagementSurfaceCachedState::new(),
    );
    state.pending().description = Some(Arc::clone(&srgb));
    state.pending().render_intent = RenderIntent::Relative;
    assert!(state.current().description.is_none());

    state.commit();
    assert!(Arc::ptr_eq(state.current().description.as_ref().unwrap(), &srgb));
    assert_eq!(state.current().render_intent, RenderIntent::Relative);
}

#[test]
fn second_commit_keeps_what_the_first_made_current() {
    let mut state = CachedState::new(
        ColorRepresentationSurfaceCachedState::default(),
        ColorRepresentationSurfaceCachedState::default(),
    );
    state.pending().alpha_mode = Some(AlphaMode::Straight);
    state.commit();
    assert_eq!(state.current().alpha_mode, Some(AlphaMode::Straight));
    state.commit();
    assert_eq!(state.current().alpha_mode, Some(AlphaMode::Straight));
    assert_eq!(state.pending().alpha_mode, Some(AlphaMode::Straight));
    assert!(state.current().coefficients.is_none());
}

#[test]
fn the_last_write_before_a_commit_is_read() {
    let mut state = CachedState::new(
        ColorRepresentationSurfaceCachedState::default(),
        ColorRepresentationSurfaceCachedState::default(),
    );
    state.pending().alpha_mode = Some(AlphaMode::Straight);
    state.pending().alpha_mode = Some(AlphaMode::PremultipliedOptical);
    state.commit();
    state.pending().alpha_mode = None;
    assert_eq!(state.current().alpha_mode, Some(AlphaMode::PremultipliedOptical));
}
