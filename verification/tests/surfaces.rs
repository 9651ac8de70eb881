use std::sync::Arc;

use smithay_color::cached_state::CachedState;
use smithay_color::color_management::surface::{
    destroy_surface, set_image_description, surface_destroyed, unset_image_description,
    SurfaceError,
};
use smithay_color::color_management::{
    with_surface_image_description, ColorManagementCapabilities,
    ColorManagementSurfaceCachedState, ColorManagementSurfaceData, DescriptionResourceData,
    ImageDescriptionInterner,
};
use smithay_color::color_representation::state::{
    get_surface, ColorRepresentationHandler, ManagerError as RepresentationManagerError,
    COLOR_REPRESENTATION_VERSION,
};
use smithay_color::color_representation::surface::{
    destroy_surface as destroy_representation, set_alpha_mode, set_chroma_location,
    set_coefficients_and_range, surface_destroyed as representation_destroyed, surface_request,
    SurfaceError as RepresentationError, SurfaceRequest,
};
use smithay_color::color_representation::{
    with_surface_color_representation, ColorRepresentationCapabilities,
    ColorRepresentationState, ColorRepresentationSurfaceCachedState,
    ColorRepresentationSurfaceData,
};
use smithay_color::hdr::HdrState;
use smithay_color::protocol::{AlphaMode, ChromaLocation, Coefficients, Range, RenderIntent};
use wayland_protocols::wp::color_management::v1::server::wp_color_management_surface_v1::Error as WireSurfaceError;
use wayland_protocols::wp::color_representation::v1::server::{
    wp_color_representation_manager_v1::Error as WireRepresentationManagerError,
    wp_color_representation_surface_v1::Error as WireRepresentationError,
};

fn ready() -> DescriptionResourceData {
    DescriptionResourceData::ready(ImageDescriptionInterner::new().srgb_default(), false)
}

#[test]
fn set_image_description_writes_the_pending_state() {
    let caps = ColorManagementCapabilities::conservative().with_intent(RenderIntent::Relative);
    let data = ready();
    let mut pending = ColorManagementSurfaceCachedState::new();
    assert_eq!(set_image_description(Some(&mut pending), &caps, 1, Some(&data)), Ok(()));
    assert_eq!(pending.render_intent, RenderIntent::Relative);
    assert!(Arc::ptr_eq(&pending.description.clone().unwrap(), &data.description().unwrap()));
    unset_image_description(Some(&mut pending));
    assert!(pending.description.is_none());
    assert_eq!(pending.render_intent, RenderIntent::Perceptual);
}

#[test]
fn set_image_description_refuses_in_order() {
    let caps = ColorManagementCapabilities::conservative();
    let inert = DescriptionResourceData::inert();
    let mut pending = ColorManagementSurfaceCachedState::new();
    let mut set = |intent, data: Option<&DescriptionResourceData>| {
        set_image_description(Some(&mut pending), &caps, intent, data)
    };
    assert_eq!(set(6, None), Err(SurfaceError::UnknownIntent));
    assert_eq!(set(1, None), Err(SurfaceError::IntentNotAdvertised));
    assert_eq!(set(0, None), Err(SurfaceError::MissingDescription));
    assert_eq!(set(0, Some(&inert)), Err(SurfaceError::InertDescription));
    assert!(pending.description.is_none());
    assert_eq!(pending.render_intent, RenderIntent::Perceptual);
}

#[test]
fn a_refused_request_leaves_the_pending_state() {
    let caps = ColorManagementCapabilities::conservative();
    let data = ready();
    let mut pending = ColorManagementSurfaceCachedState::new();
    set_image_description(Some(&mut pending), &caps, 0, Some(&data)).unwrap();
    let inert = DescriptionResourceData::inert();
    assert!(set_image_description(Some(&mut pending), &caps, 0, Some(&inert)).is_err());
    assert!(pending.description.is_some());
}

#[test]
fn requests_for_a_surface_that_is_gone_are_ignored() {
    let caps = ColorManagementCapabilities::conservative();
    assert_eq!(set_image_description(None, &caps, 77, None), Ok(()));
    unset_image_description(None);
    destroy_surface(None, None);
    surface_destroyed(None);
}

#[test]
fn destroy_unsets_and_frees_the_surface() {
    let caps = ColorManagementCapabilities::conservative();
    let mut pending = ColorManagementSurfaceCachedState::new();
    set_image_description(Some(&mut pending), &caps, 0, Some(&ready())).unwrap();
    let mut data = ColorManagementSurfaceData::new();
    data.is_resource_attached_or_attach();
    destroy_surface(Some(&mut pending), Some(&mut data));
    assert!(pending.description.is_none());
    assert!(!data.is_resource_attached_or_attach());
    surface_destroyed(Some(&mut data));
    assert!(!data.is_resource_attached_or_attach());
}

#[test]
fn surface_errors_have_the_codes_of_the_protocol() {
    let expected = [
        (SurfaceError::UnknownIntent, WireSurfaceError::RenderIntent, "unknown render intent"),
        (
            SurfaceError::IntentNotAdvertised,
            WireSurfaceError::RenderIntent,
            "render intent not advertised by compositor",
        ),
        (
            SurfaceError::MissingDescription,
            WireSurfaceError::ImageDescription,
            "missing description user-data",
        ),
        (
            SurfaceError::InertDescription,
            WireSurfaceError::ImageDescription,
            "image description is inert",
        ),
    ];
    for (error, wire, message) in expected {
        assert_eq!(error.code(), u32::from(wire));
        assert_eq!(error.message(), message);
    }
}

#[test]
fn what_a_surface_committed_is_read() {
    let caps = ColorManagementCapabilities::conservative();
    let data = ready();
    let mut state = CachedState::new(
        ColorManagementSurfaceCachedState::new(),
        ColorManagementSurfaceCachedState::new(),
    );
    set_image_description(Some(state.pending()), &caps, 0, Some(&data)).unwrap();
    let read = |state: &CachedState<ColorManagementSurfaceCachedState>| {
        with_surface_image_description(state.current(), |description, intent| {
            (description.map(|d| d.identity), intent)
        })
    };
    assert_eq!(read(&state), (None, RenderIntent::Perceptual));
    state.commit();
    assert_eq!(read(&state), (Some(1), RenderIntent::Perceptual));
}

#[test]
fn representation_requests_write_the_pending_state() {
    let caps = ColorRepresentationCapabilities::conservative();
    let mut pending = ColorRepresentationSurfaceCachedState::default();
    let straight = AlphaMode::Straight.to_wire();
    assert_eq!(set_alpha_mode(Some(&mut pending), &caps, straight), Ok(()));
    assert_eq!(pending.alpha_mode, Some(AlphaMode::Straight));
    assert_eq!(set_coefficients_and_range(Some(&mut pending), &caps, 6, 2), Ok(()));
    assert_eq!(pending.coefficients, Some(Coefficients::Bt2020));
    assert_eq!(pending.range, Some(Range::Limited));
    assert_eq!(set_chroma_location(Some(&mut pending), 6), Ok(()));
    assert_eq!(pending.chroma_location, Some(ChromaLocation::Type5));
    let seen = with_surface_color_representation(&pending, |state| {
        (state.alpha_mode, state.coefficients, state.range, state.chroma_location)
    });
    assert_eq!(
        seen,
        (
            Some(AlphaMode::Straight),
            Some(Coefficients::Bt2020),
            Some(Range::Limited),
            Some(ChromaLocation::Type5)
        )
    );

    let mut data = ColorRepresentationSurfaceData::new();
    data.is_resource_attached_or_attach();
    destroy_representation(Some(&mut pending), Some(&mut data));
    assert!(pending.alpha_mode.is_none());
    assert!(pending.coefficients.is_none());
    assert!(pending.range.is_none());
    assert!(pending.chroma_location.is_none());
    assert!(!data.is_resource_attached_or_attach());
    representation_destroyed(Some(&mut data));
    assert!(!data.is_resource_attached_or_attach());
}

#[test]
fn representation_requests_are_refused() {
    let caps = ColorRepresentationCapabilities::conservative();
    let mut pending = ColorRepresentationSurfaceCachedState::default();
    assert_eq!(
        set_alpha_mode(Some(&mut pending), &caps, 3),
        Err(RepresentationError::UnknownAlphaMode)
    );
    let optical = AlphaMode::PremultipliedOptical.to_wire();
    assert_eq!(
        set_alpha_mode(Some(&mut pending), &caps, optical),
        Err(RepresentationError::AlphaModeNotAdvertised)
    );
    let mut set = |coefficients, range| {
        set_coefficients_and_range(Some(&mut pending), &caps, coefficients, range)
    };
    assert_eq!(set(0, 0), Err(RepresentationError::UnknownCoefficients));
    assert_eq!(set(2, 0), Err(RepresentationError::UnknownRange));
    assert_eq!(set(4, 1), Err(RepresentationError::PairNotAdvertised));
    assert_eq!(
        set_chroma_location(Some(&mut pending), 0),
        Err(RepresentationError::UnknownChromaLocation)
    );
    assert!(pending.alpha_mode.is_none());
    assert!(pending.coefficients.is_none());
    assert!(pending.range.is_none());
    assert!(pending.chroma_location.is_none());
}

#[test]
fn representation_values_are_checked_for_surfaces_that_are_gone() {
    let caps = ColorRepresentationCapabilities::conservative();
    assert_eq!(
        surface_request(None, &caps, SurfaceRequest::SetAlphaMode { alpha_mode: 9 }),
        Err(RepresentationError::UnknownAlphaMode)
    );
    assert_eq!(
        surface_request(
            None,
            &caps,
            SurfaceRequest::SetCoefficientsAndRange { coefficients: 2, range: 1 }
        ),
        Ok(())
    );
    assert_eq!(
        surface_request(None, &caps, SurfaceRequest::SetChromaLocation { chroma_location: 7 }),
        Err(RepresentationError::UnknownChromaLocation)
    );
    destroy_representation(None, None);
    representation_destroyed(None);
}

#[test]
fn representation_requests_of_different_kinds_commute() {
    let caps = ColorRepresentationCapabilities::conservative();
    let requests = [
        SurfaceRequest::SetAlphaMode { alpha_mode: 0 },
        SurfaceRequest::SetCoefficientsAndRange { coefficients: 6, range: 1 },
        SurfaceRequest::SetChromaLocation { chroma_location: 1 },
    ];
    for order in [[0, 1, 2], [2, 1, 0], [1, 2, 0]] {
        let mut pending = ColorRepresentationSurfaceCachedState::default();
        for i in order {
            let request: SurfaceRequest = requests[i];
            assert_eq!(surface_request(Some(&mut pending), &caps, request), Ok(()));
        }
        assert_eq!(pending.alpha_mode, Some(AlphaMode::PremultipliedElectrical));
        assert_eq!(pending.coefficients, Some(Coefficients::Bt2020));
        assert_eq!(pending.range, Some(Range::Full));
        assert_eq!(pending.chroma_location, Some(ChromaLocation::Type0));
    }
}

#[test]
fn representation_state_holds_only_advertised_pairs() {
    let caps = ColorRepresentationCapabilities::empty()
        .with_coefficients_and_range(Coefficients::Bt709, Range::Full)
        .with_coefficients_and_range(Coefficients::Bt601, Range::Limited);
    let mut pending = ColorRepresentationSurfaceCachedState::default();
    for coefficients in 0..10 {
        for range in 0..4 {
            let before = (pending.coefficients, pending.range);
            let request = SurfaceRequest::SetCoefficientsAndRange { coefficients, range };
            let result = surface_request(Some(&mut pending), &caps, request);
            if result.is_err() {
                assert_eq!((pending.coefficients, pending.range), before);
            }
            if let (Some(c), Some(r)) = (pending.coefficients, pending.range) {
                assert!(caps.supports_coefficients_and_range(c, r));
            } else {
                assert!(pending.coefficients.is_none() && pending.range.is_none());
            }
        }
    }
    assert_eq!(pending.coefficients, Some(Coefficients::Bt601));
    assert_eq!(pending.range, Some(Range::Limited));
}

#[test]
fn representation_errors_have_the_codes_of_the_protocol() {
    let expected = [
        (
            RepresentationError::UnknownAlphaMode,
            WireRepresentationError::AlphaMode,
            "unknown alpha_mode enum value",
        ),
        (
            RepresentationError::AlphaModeNotAdvertised,
            WireRepresentationError::AlphaMode,
            "alpha_mode not advertised by compositor",
        ),
        (
            RepresentationError::UnknownCoefficients,
            WireRepresentationError::Coefficients,
            "unknown coefficients enum value",
        ),
        (
            RepresentationError::UnknownRange,
            WireRepresentationError::Coefficients,
            "unknown range enum value",
        ),
        (
            RepresentationError::PairNotAdvertised,
            WireRepresentationError::Coefficients,
            "(coefficients, range) pair not advertised by compositor",
        ),
        (
            RepresentationError::UnknownChromaLocation,
            WireRepresentationError::ChromaLocation,
            "unknown chroma_location enum value",
        ),
    ];
    for (error, wire, message) in expected {
        assert_eq!(error.code(), u32::from(wire));
        assert_eq!(error.message(), message);
    }
    let error = RepresentationManagerError::SurfaceExists;
    assert_eq!(error.code(), u32::from(WireRepresentationManagerError::SurfaceExists));
    assert_eq!(
        error.message(),
        "wl_surface already has wp_color_representation_surface_v1"
    );
}

struct Compositor(ColorRepresentationState<u8>);

impl ColorRepresentationHandler<u8> for Compositor {
    fn color_representation_state(&mut self) -> &mut ColorRepresentationState<u8> {
        &mut self.0
    }
}

#[test]
fn representation_state_keeps_global_and_capabilities() {
    let mut compositor = Compositor(ColorRepresentationState::new(
        9,
        ColorRepresentationCapabilities::conservative(),
    ));
    let state = compositor.color_representation_state();
    assert_eq!(*state.global(), 9);
    assert!(state.capabilities().supports_alpha_mode(AlphaMode::Straight));
    assert_eq!(COLOR_REPRESENTATION_VERSION, 1);
}

#[test]
fn representation_get_surface_is_exclusive() {
    let mut data = ColorRepresentationSurfaceData::new();
    assert_eq!(get_surface(&mut data, "surface").unwrap().surface, "surface");
    assert_eq!(
        get_surface(&mut data, "surface").err(),
        Some(RepresentationManagerError::SurfaceExists)
    );
    data.detach();
    assert!(get_surface(&mut data, "surface").is_ok());
}

#[test]
fn destroy_makes_a_representation_surface_as_new() {
    let caps = ColorRepresentationCapabilities::conservative();
    let mut data = ColorRepresentationSurfaceData::new();
    let mut pending = ColorRepresentationSurfaceCachedState::default();
    get_surface(&mut data, "surface").unwrap();
    set_chroma_location(Some(&mut pending), 2).unwrap();
    set_alpha_mode(Some(&mut pending), &caps, 0).unwrap();
    assert!(get_surface(&mut data, "surface").is_err());
    assert_eq!(pending.chroma_location, Some(ChromaLocation::Type1));
    destroy_representation(Some(&mut pending), Some(&mut data));
    assert!(pending.alpha_mode.is_none() && pending.chroma_location.is_none());
    assert!(get_surface(&mut data, "surface").is_ok());
}

#[test]
fn sdr_clears_both_values() {
    let sdr = HdrState::sdr();
    assert_eq!(sdr, HdrState { colorspace_value: 0, metadata_blob_id: 0 });
    assert_ne!(sdr, HdrState { colorspace_value: 9, metadata_blob_id: 0 });
}
