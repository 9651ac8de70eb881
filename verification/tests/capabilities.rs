use std::collections::HashSet;

use smithay_color::color_management::state::{bind_events, BindEvent};
use smithay_color::color_management::ColorManagementCapabilities;
use smithay_color::color_representation::state::{
    bind_events as representation_bind_events, BindEvent as RepresentationBindEvent,
};
use smithay_color::color_representation::ColorRepresentationCapabilities;
use smithay_color::protocol::{
    AlphaMode, Coefficients, Feature, Primaries, Range, RenderIntent, TransferFunction,
};

#[test]
fn empty_advertises_nothing() {
    let caps = ColorManagementCapabilities::empty();
    assert!(!caps.supports_intent(RenderIntent::Perceptual));
    assert!(!caps.supports_feature(Feature::Parametric));
    assert!(!caps.supports_primaries(Primaries::Srgb));
    assert!(!caps.supports_transfer_function(TransferFunction::Srgb));
    assert_eq!(bind_events(&caps), vec![BindEvent::Done]);
}

#[test]
fn conservative_advertises_the_documented_set() {
    let caps = ColorManagementCapabilities::conservative();
    let intents: HashSet<RenderIntent> = caps.intents().into_iter().collect();
    assert_eq!(intents, HashSet::from([RenderIntent::Perceptual]));
    let features: HashSet<Feature> = caps.features().into_iter().collect();
    assert_eq!(
        features,
        HashSet::from([
            Feature::Parametric,
            Feature::SetPrimaries,
            Feature::SetLuminances,
            Feature::SetMasteringDisplayPrimaries,
            Feature::ExtendedTargetVolume,
        ])
    );
    let primaries: HashSet<Primaries> = caps.primaries().into_iter().collect();
    assert_eq!(
        primaries,
        HashSet::from([
            Primaries::Srgb,
            Primaries::Bt2020,
            Primaries::DciP3,
            Primaries::DisplayP3,
        ])
    );
    let tfs: HashSet<TransferFunction> = caps.transfer_functions().into_iter().collect();
    assert_eq!(
        tfs,
        HashSet::from([
            TransferFunction::Srgb,
            TransferFunction::St2084Pq,
            TransferFunction::Hlg,
            TransferFunction::ExtLinear,
            TransferFunction::Bt1886,
            TransferFunction::Gamma22,
        ])
    );
}

#[test]
fn conservative_leaves_out_icc_power_curves_and_other_intents() {
    let caps = ColorManagementCapabilities::default();
    assert!(!caps.supports_feature(Feature::IccV2V4));
    assert!(!caps.supports_feature(Feature::SetTfPower));
    assert!(!caps.supports_feature(Feature::WindowsScrgb));
    assert!(!caps.supports_intent(RenderIntent::Relative));
    assert!(!caps.supports_intent(RenderIntent::Saturation));
    assert!(!caps.supports_intent(RenderIntent::Absolute));
    assert!(!caps.supports_intent(RenderIntent::RelativeBpc));
}

#[test]
fn builders_add_one_value_each() {
    let caps = ColorManagementCapabilities::empty()
        .with_intent(RenderIntent::Absolute)
        .with_feature(Feature::IccV2V4)
        .with_primaries(Primaries::AdobeRgb)
        .with_transfer_function(TransferFunction::Log100);
    assert!(caps.supports_intent(RenderIntent::Absolute));
    assert!(!caps.supports_intent(RenderIntent::Perceptual));
    assert!(caps.supports_feature(Feature::IccV2V4));
    assert!(!caps.supports_feature(Feature::Parametric));
    assert!(caps.supports_primaries(Primaries::AdobeRgb));
    assert!(!caps.supports_primaries(Primaries::Srgb));
    assert!(caps.supports_transfer_function(TransferFunction::Log100));
    assert!(!caps.supports_transfer_function(TransferFunction::Log316));
}

#[test]
fn adding_a_value_twice_lists_it_once() {
    let caps = ColorManagementCapabilities::empty()
        .with_feature(Feature::Parametric)
        .with_feature(Feature::Parametric);
    assert_eq!(caps.features(), vec![Feature::Parametric]);
}

#[test]
fn clones_advertise_the_same() {
    let caps = ColorManagementCapabilities::conservative();
    let copy = caps.clone();
    assert_eq!(copy.features().len(), 5);
    assert!(copy.supports_primaries(Primaries::DciP3));
    assert!(!copy.supports_primaries(Primaries::Ntsc));
    let caps = ColorRepresentationCapabilities::conservative().clone();
    assert_eq!(caps.coefficient_range_pairs().len(), 4);
    assert!(caps.supports_alpha_mode(AlphaMode::Straight));
}

#[test]
fn bind_announces_intents_features_transfer_functions_primaries_then_done() {
    let caps = ColorManagementCapabilities::conservative();
    let events = bind_events(&caps);
    assert_eq!(events.len(), 1 + 5 + 6 + 4 + 1);
    assert_eq!(events[0], BindEvent::SupportedIntent(RenderIntent::Perceptual));
    for event in &events[1..6] {
        assert!(matches!(event, BindEvent::SupportedFeature(f) if caps.supports_feature(*f)));
    }
    for event in &events[6..12] {
        assert!(
            matches!(event, BindEvent::SupportedTfNamed(t) if caps.supports_transfer_function(*t))
        );
    }
    for event in &events[12..16] {
        assert!(
            matches!(event, BindEvent::SupportedPrimariesNamed(p) if caps.supports_primaries(*p))
        );
    }
    assert_eq!(events[16], BindEvent::Done);
    for (i, event) in events.iter().enumerate() {
        assert!(!events[i + 1..].contains(event));
    }
}

#[test]
fn representation_empty_advertises_nothing() {
    let caps = ColorRepresentationCapabilities::empty();
    assert!(!caps.supports_alpha_mode(AlphaMode::PremultipliedElectrical));
    assert!(!caps.supports_coefficients_and_range(Coefficients::Bt709, Range::Full));
    assert_eq!(representation_bind_events(&caps), vec![RepresentationBindEvent::Done]);
}

#[test]
fn representation_conservative_advertises_the_documented_set() {
    let caps = ColorRepresentationCapabilities::default();
    let modes: HashSet<AlphaMode> = caps.alpha_modes().into_iter().collect();
    assert_eq!(
        modes,
        HashSet::from([AlphaMode::PremultipliedElectrical, AlphaMode::Straight])
    );
    let pairs: HashSet<(Coefficients, Range)> =
        caps.coefficient_range_pairs().into_iter().collect();
    assert_eq!(
        pairs,
        HashSet::from([
            (Coefficients::Bt709, Range::Full),
            (Coefficients::Bt709, Range::Limited),
            (Coefficients::Bt2020, Range::Full),
            (Coefficients::Bt2020, Range::Limited),
        ])
    );
    assert!(!caps.supports_alpha_mode(AlphaMode::PremultipliedOptical));
    assert!(!caps.supports_coefficients_and_range(Coefficients::Bt601, Range::Full));
}

#[test]
fn representation_builders_add_one_value_each() {
    let caps = ColorRepresentationCapabilities::empty()
        .with_alpha_mode(AlphaMode::PremultipliedOptical)
        .with_coefficients_and_range(Coefficients::Ictcp, Range::Limited);
    assert!(caps.supports_alpha_mode(AlphaMode::PremultipliedOptical));
    assert!(!caps.supports_alpha_mode(AlphaMode::Straight));
    assert!(caps.supports_coefficients_and_range(Coefficients::Ictcp, Range::Limited));
    assert!(!caps.supports_coefficients_and_range(Coefficients::Ictcp, Range::Full));
    assert_eq!(
        representation_bind_events(&caps),
        vec![
            RepresentationBindEvent::SupportedAlphaMode(AlphaMode::PremultipliedOptical),
            RepresentationBindEvent::SupportedCoefficientsAndRanges(
                Coefficients::Ictcp,
                Range::Limited
            ),
            RepresentationBindEvent::Done,
        ]
    );
}

#[test]
fn representation_bind_announces_both_ranges_of_a_coefficient() {
    let events = representation_bind_events(&ColorRepresentationCapabilities::conservative());
    assert_eq!(events.len(), 2 + 4 + 1);
    assert!(matches!(events[0], RepresentationBindEvent::SupportedAlphaMode(_)));
    assert!(matches!(events[1], RepresentationBindEvent::SupportedAlphaMode(_)));
    for range in [Range::Full, Range::Limited] {
        assert!(events[2..6].contains(&RepresentationBindEvent::SupportedCoefficientsAndRanges(
            Coefficients::Bt709,
            range
        )));
    }
    assert_eq!(events[6], RepresentationBindEvent::Done);
}
