use smithay_color::color_management::icc_creator::{
    read_icc_fd, IccError, IccReadError, IccReadPlan, MAX_ICC,
};
use smithay_color::color_management::params_creator::{ParamsError, ParamsRequest};
use smithay_color::color_management::replies::DescriptionOutcome;
use smithay_color::color_management::{
    Chromaticities, ColorManagementCapabilities, IccCreatorBuilder, ImageDescriptionInterner,
    Luminances, MasteringLuminance, ParamsCreatorBuilder, PrimariesDef, TransferFunctionDef,
};
use smithay_color::protocol::{Feature, Primaries, TransferFunction};
use wayland_protocols::wp::color_management::v1::server::{
    wp_image_description_creator_icc_v1::Error as WireIccError,
    wp_image_description_creator_params_v1::Error as WireParamsError,
};

const BT2020: Chromaticities = Chromaticities {
    r: (708_000, 292_000),
    g: (170_000, 797_000),
    b: (131_000, 46_000),
    w: (312_700, 329_000),
};

fn conservative() -> ColorManagementCapabilities {
    ColorManagementCapabilities::conservative()
}

fn set_tf(tf: TransferFunction) -> ParamsRequest {
    ParamsRequest::SetTfNamed { tf: tf.to_wire() }
}

fn set_primaries(primaries: Primaries) -> ParamsRequest {
    ParamsRequest::SetPrimariesNamed { primaries: primaries.to_wire() }
}

#[test]
fn params_creator_makes_a_pq_description() {
    let caps = conservative();
    let mut interner = ImageDescriptionInterner::new();
    let mut builder = ParamsCreatorBuilder::default();
    let luminances = Luminances { min_lum: 5, max_lum: 10_000, reference_lum: 203 };
    let mastering = MasteringLuminance { min_lum: 1, max_lum: 1000 };
    for request in [
        set_tf(TransferFunction::St2084Pq),
        set_primaries(Primaries::Bt2020),
        ParamsRequest::SetLuminances { luminances },
        ParamsRequest::SetMasteringDisplayPrimaries { chromaticities: BT2020 },
        ParamsRequest::SetMasteringLuminance { luminance: mastering },
        ParamsRequest::SetMaxCll { max_cll: 800 },
        ParamsRequest::SetMaxFall { max_fall: 400 },
    ] {
        assert_eq!(builder.set_parameter(&caps, request), Ok(()));
    }
    let reply = builder.create(&mut interner).unwrap();
    assert_eq!(reply.outcome, DescriptionOutcome::Ready(2));
    assert!(!reply.data.allow_get_information);
    assert!(reply.fresh);
    let description = reply.data.description().unwrap();
    assert_eq!(description.identity, 2);
    assert_eq!(description.primaries, Some(PrimariesDef::Named(Primaries::Bt2020)));
    assert_eq!(
        description.transfer_function,
        Some(TransferFunctionDef::Named(TransferFunction::St2084Pq))
    );
    assert_eq!(description.luminances, Some(luminances));
    assert_eq!(description.mastering_primaries, Some(BT2020));
    assert_eq!(description.mastering_luminance, Some(mastering));
    assert_eq!(description.max_cll, Some(800));
    assert_eq!(description.max_fall, Some(400));
    assert!(!description.is_icc());
    assert!(!description.windows_scrgb);
}

#[test]
fn params_creator_finds_the_default_description_again() {
    let caps = conservative();
    let mut interner = ImageDescriptionInterner::new();
    let mut builder = ParamsCreatorBuilder::default();
    builder.set_parameter(&caps, set_primaries(Primaries::Srgb)).unwrap();
    builder.set_parameter(&caps, set_tf(TransferFunction::Srgb)).unwrap();
    let reply = builder.create(&mut interner).unwrap();
    assert_eq!(reply.outcome, DescriptionOutcome::Ready(1));
    assert!(!reply.fresh);
    assert_eq!(interner.len(), 1);
}

#[test]
fn params_creator_needs_a_transfer_function_and_primaries() {
    let caps = conservative();
    let mut interner = ImageDescriptionInterner::new();
    let mut nothing = ParamsCreatorBuilder::default();
    assert_eq!(nothing.create(&mut interner).err(), Some(ParamsError::Incomplete));
    let mut only_tf = ParamsCreatorBuilder::default();
    only_tf.set_parameter(&caps, set_tf(TransferFunction::Hlg)).unwrap();
    assert_eq!(only_tf.create(&mut interner).err(), Some(ParamsError::Incomplete));
    let mut only_primaries = ParamsCreatorBuilder::default();
    only_primaries.set_parameter(&caps, set_primaries(Primaries::DciP3)).unwrap();
    assert_eq!(only_primaries.create(&mut interner).err(), Some(ParamsError::Incomplete));
    assert_eq!(interner.len(), 1);
}

#[test]
fn params_creator_creates_once() {
    let caps = conservative();
    let mut interner = ImageDescriptionInterner::new();
    let mut builder = ParamsCreatorBuilder::default();
    builder.set_parameter(&caps, set_tf(TransferFunction::Hlg)).unwrap();
    builder.set_parameter(&caps, set_primaries(Primaries::Bt2020)).unwrap();
    assert!(builder.create(&mut interner).is_ok());
    assert_eq!(builder.create(&mut interner).err(), Some(ParamsError::CreateTwice));
    assert_eq!(interner.len(), 2);
}

#[test]
fn transfer_function_is_set_once() {
    let caps = conservative().with_feature(Feature::SetTfPower);
    let mut builder = ParamsCreatorBuilder::default();
    builder.set_parameter(&caps, set_tf(TransferFunction::Hlg)).unwrap();
    assert_eq!(
        builder.set_parameter(&caps, set_tf(TransferFunction::Hlg)),
        Err(ParamsError::TfAlreadySet)
    );
    assert_eq!(
        builder.set_parameter(&caps, ParamsRequest::SetTfPower { eexp: 24_000 }),
        Err(ParamsError::TfAlreadySet)
    );
    // Being set already is noticed before the number is looked at.
    assert_eq!(
        builder.set_parameter(&caps, ParamsRequest::SetTfNamed { tf: 1000 }),
        Err(ParamsError::TfAlreadySet)
    );
    assert_eq!(builder.0.tf, Some(TransferFunctionDef::Named(TransferFunction::Hlg)));
}

#[test]
fn transfer_function_has_to_be_known_and_advertised() {
    let caps = conservative();
    let mut builder = ParamsCreatorBuilder::default();
    assert_eq!(
        builder.set_parameter(&caps, ParamsRequest::SetTfNamed { tf: 0 }),
        Err(ParamsError::UnknownTf)
    );
    assert_eq!(
        builder.set_parameter(&caps, ParamsRequest::SetTfNamed { tf: 1000 }),
        Err(ParamsError::UnknownTf)
    );
    assert_eq!(
        builder.set_parameter(&caps, set_tf(TransferFunction::Log100)),
        Err(ParamsError::TfNotAdvertised)
    );
    assert_eq!(builder.0.tf, None);
}

#[test]
fn power_curve_needs_the_feature() {
    let mut builder = ParamsCreatorBuilder::default();
    let power = ParamsRequest::SetTfPower { eexp: 24_000 };
    assert_eq!(
        builder.set_parameter(&conservative(), power),
        Err(ParamsError::TfPowerNotAdvertised)
    );
    let caps = conservative().with_feature(Feature::SetTfPower);
    assert_eq!(builder.set_parameter(&caps, power), Ok(()));
    assert_eq!(builder.0.tf, Some(TransferFunctionDef::Power(24_000)));
    // The feature is looked at before what is set.
    assert_eq!(
        builder.set_parameter(&conservative(), power),
        Err(ParamsError::TfPowerNotAdvertised)
    );
}

#[test]
fn primaries_are_set_once() {
    let caps = conservative();
    let mut builder = ParamsCreatorBuilder::default();
    let custom = ParamsRequest::SetPrimaries { chromaticities: BT2020 };
    assert_eq!(builder.set_parameter(&caps, custom), Ok(()));
    assert_eq!(builder.set_parameter(&caps, custom), Err(ParamsError::PrimariesAlreadySet));
    assert_eq!(
        builder.set_parameter(&caps, set_primaries(Primaries::Srgb)),
        Err(ParamsError::PrimariesAlreadySet)
    );
    assert_eq!(builder.0.primaries, Some(PrimariesDef::Custom(BT2020)));
}

#[test]
fn primaries_have_to_be_known_and_advertised() {
    let caps = conservative();
    let mut builder = ParamsCreatorBuilder::default();
    assert_eq!(
        builder.set_parameter(&caps, ParamsRequest::SetPrimariesNamed { primaries: 11 }),
        Err(ParamsError::UnknownPrimaries)
    );
    assert_eq!(
        builder.set_parameter(&caps, set_primaries(Primaries::Ntsc)),
        Err(ParamsError::PrimariesNotAdvertised)
    );
    let bare = ColorManagementCapabilities::empty();
    assert_eq!(
        builder.set_parameter(&bare, ParamsRequest::SetPrimaries { chromaticities: BT2020 }),
        Err(ParamsError::SetPrimariesNotAdvertised)
    );
    assert_eq!(builder.0.primaries, None);
}

#[test]
fn luminances_are_checked() {
    let caps = conservative();
    let mut builder = ParamsCreatorBuilder::default();
    let request = |min_lum, max_lum, reference_lum| ParamsRequest::SetLuminances {
        luminances: Luminances { min_lum, max_lum, reference_lum },
    };
    assert_eq!(
        builder.set_parameter(&ColorManagementCapabilities::empty(), request(0, 100, 100)),
        Err(ParamsError::SetLuminancesNotAdvertised)
    );
    assert_eq!(
        builder.set_parameter(&caps, request(0, 202, 203)),
        Err(ParamsError::InvalidLuminance)
    );
    assert_eq!(builder.set_parameter(&caps, request(0, 80, 0)), Err(ParamsError::InvalidLuminance));
    assert_eq!(builder.set_parameter(&caps, request(0, 0, 0)), Err(ParamsError::InvalidLuminance));
    // The minimum is not compared with the others.
    assert_eq!(builder.set_parameter(&caps, request(u32::MAX, 203, 203)), Ok(()));
    assert_eq!(
        builder.set_parameter(&caps, request(0, 80, 0)),
        Err(ParamsError::LuminancesAlreadySet)
    );
}

#[test]
fn mastering_metadata_can_be_set_again() {
    let caps = conservative();
    let mut builder = ParamsCreatorBuilder::default();
    assert_eq!(
        builder.set_parameter(
            &ColorManagementCapabilities::empty(),
            ParamsRequest::SetMasteringDisplayPrimaries { chromaticities: BT2020 }
        ),
        Err(ParamsError::MasteringPrimariesNotAdvertised)
    );
    for max in [100, 200] {
        let luminance = MasteringLuminance { min_lum: 1, max_lum: max };
        let moved = Chromaticities { r: (1, max as i32), ..BT2020 };
        assert_eq!(
            builder.set_parameter(
                &caps,
                ParamsRequest::SetMasteringDisplayPrimaries { chromaticities: moved }
            ),
            Ok(())
        );
        assert_eq!(
            builder.set_parameter(&caps, ParamsRequest::SetMasteringLuminance { luminance }),
            Ok(())
        );
        assert_eq!(builder.set_parameter(&caps, ParamsRequest::SetMaxCll { max_cll: max }), Ok(()));
        assert_eq!(builder.set_parameter(&caps, ParamsRequest::SetMaxFall { max_fall: max }), Ok(()));
        assert_eq!(builder.0.mastering_primaries, Some(moved));
        assert_eq!(builder.0.mastering_luminance, Some(luminance));
        assert_eq!(builder.0.max_cll, Some(max));
        assert_eq!(builder.0.max_fall, Some(max));
    }
}

#[test]
fn params_errors_have_the_codes_of_the_protocol() {
    let expected = [
        (ParamsError::CreateTwice, WireParamsError::AlreadySet, "create called twice"),
        (ParamsError::Incomplete, WireParamsError::IncompleteSet, "tf and primaries are required"),
        (ParamsError::TfAlreadySet, WireParamsError::AlreadySet, "transfer function already set"),
        (ParamsError::UnknownTf, WireParamsError::InvalidTf, "unknown transfer function"),
        (
            ParamsError::TfNotAdvertised,
            WireParamsError::InvalidTf,
            "transfer function not advertised",
        ),
        (
            ParamsError::TfPowerNotAdvertised,
            WireParamsError::UnsupportedFeature,
            "set_tf_power not advertised",
        ),
        (ParamsError::PrimariesAlreadySet, WireParamsError::AlreadySet, "primaries already set"),
        (
            ParamsError::UnknownPrimaries,
            WireParamsError::InvalidPrimariesNamed,
            "unknown primaries",
        ),
        (
            ParamsError::PrimariesNotAdvertised,
            WireParamsError::InvalidPrimariesNamed,
            "primaries not advertised",
        ),
        (
            ParamsError::SetPrimariesNotAdvertised,
            WireParamsError::UnsupportedFeature,
            "set_primaries not advertised",
        ),
        (
            ParamsError::SetLuminancesNotAdvertised,
            WireParamsError::UnsupportedFeature,
            "set_luminances not advertised",
        ),
        (ParamsError::LuminancesAlreadySet, WireParamsError::AlreadySet, "luminances already set"),
        (
            ParamsError::InvalidLuminance,
            WireParamsError::InvalidLuminance,
            "invalid luminance range",
        ),
        (
            ParamsError::MasteringPrimariesNotAdvertised,
            WireParamsError::UnsupportedFeature,
            "set_mastering_display_primaries not advertised",
        ),
    ];
    for (error, wire, message) in expected {
        assert_eq!(error.code(), u32::from(wire));
        assert_eq!(error.message(), message);
    }
}

#[test]
fn icc_range_is_checked_against_limit_and_file() {
    assert_eq!(MAX_ICC, 4 * 1024 * 1024);
    assert_eq!(read_icc_fd(0, 0, Some(100)), Err(IccReadError::BadSize));
    assert_eq!(read_icc_fd(0, MAX_ICC + 1, Some(u64::MAX)), Err(IccReadError::BadSize));
    assert_eq!(
        read_icc_fd(0, MAX_ICC, Some(u64::from(MAX_ICC))),
        Ok(IccReadPlan { start: 0, length: 4_194_304 })
    );
    assert_eq!(read_icc_fd(0, 128, None), Err(IccReadError::BadFd));
    // The length is looked at first.
    assert_eq!(read_icc_fd(0, 0, None), Err(IccReadError::BadSize));
    assert_eq!(read_icc_fd(100, 28, Some(127)), Err(IccReadError::OutOfFile));
    assert_eq!(
        read_icc_fd(100, 28, Some(128)),
        Ok(IccReadPlan { start: 100, length: 28 })
    );
    assert_eq!(read_icc_fd(u32::MAX, 1, Some(u64::from(u32::MAX))), Err(IccReadError::OutOfFile));
}

#[test]
fn icc_creator_makes_a_description_of_the_bytes() {
    let mut interner = ImageDescriptionInterner::new();
    let mut builder = IccCreatorBuilder::default();
    let plan = builder.plan_icc_file(2, 3, Some(5)).unwrap();
    assert_eq!(builder.set_icc_file(plan, Some(vec![7, 8, 9])), Ok(()));
    assert_eq!(builder.plan_icc_file(2, 3, Some(5)), Err(IccError::AlreadySet));
    assert_eq!(builder.set_icc_file(plan, Some(vec![1, 2, 3])), Err(IccError::AlreadySet));
    let reply = builder.create(&mut interner).unwrap();
    assert_eq!(reply.outcome, DescriptionOutcome::Ready(2));
    assert!(!reply.data.allow_get_information);
    let description = reply.data.description().unwrap();
    assert!(description.is_icc());
    assert!(!description.is_parametric());
    assert_eq!(*description.icc.as_ref().unwrap().bytes, vec![7, 8, 9]);
    assert_eq!(builder.create(&mut interner).err(), Some(IccError::CreateTwice));
}

#[test]
fn icc_descriptions_of_equal_bytes_share_an_identity() {
    let mut interner = ImageDescriptionInterner::new();
    let mut identity_of = |bytes: Vec<u8>| {
        let mut builder = IccCreatorBuilder::default();
        let length = bytes.len() as u32;
        let plan = builder.plan_icc_file(0, length, Some(u64::from(length))).unwrap();
        builder.set_icc_file(plan, Some(bytes)).unwrap();
        builder.create(&mut interner).unwrap().data.description().unwrap().identity
    };
    assert_eq!(identity_of(vec![1, 2]), 2);
    assert_eq!(identity_of(vec![1, 3]), 3);
    assert_eq!(identity_of(vec![1, 2]), 2);
}

#[test]
fn icc_creator_reports_failed_reads() {
    let mut builder = IccCreatorBuilder::default();
    let plan = builder.plan_icc_file(0, 3, Some(5)).unwrap();
    assert_eq!(builder.set_icc_file(plan, None), Err(IccError::BadFd));
    assert_eq!(builder.set_icc_file(plan, Some(vec![1])), Err(IccError::BadFd));
    assert_eq!(builder.plan_icc_file(0, 3, None), Err(IccError::BadFd));
    assert_eq!(builder.plan_icc_file(0, 0, Some(5)), Err(IccError::BadSize));
    assert_eq!(builder.plan_icc_file(3, 3, Some(5)), Err(IccError::OutOfFile));
    let mut interner = ImageDescriptionInterner::new();
    assert_eq!(builder.create(&mut interner).err(), Some(IccError::Incomplete));
    assert_eq!(interner.len(), 1);
}

#[test]
fn icc_errors_have_the_codes_of_the_protocol() {
    let expected = [
        (IccError::CreateTwice, WireIccError::AlreadySet, "create called twice"),
        (IccError::Incomplete, WireIccError::IncompleteSet, "set_icc_file required"),
        (IccError::AlreadySet, WireIccError::AlreadySet, "ICC file already set"),
        (IccError::BadFd, WireIccError::BadFd, "ICC fd not seekable/readable"),
        (IccError::BadSize, WireIccError::BadSize, "ICC length out of range"),
        (IccError::OutOfFile, WireIccError::OutOfFile, "offset+length exceeds file size"),
    ];
    for (error, wire, message) in expected {
        assert_eq!(error.code(), u32::from(wire));
        assert_eq!(error.message(), message);
    }
}
