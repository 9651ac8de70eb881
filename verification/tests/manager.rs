use std::sync::Arc;

use smithay_color::color_management::handler::{
    announce_description, complete_description, create_icc_description,
    create_parametric_description, create_windows_scrgb_description,
    get_output_image_description, handle_feedback_get_preferred, output_reply, preferred_reply,
    report_failure,
};
use smithay_color::color_management::icc_creator::IccError;
use smithay_color::color_management::information::{emit_information_events, InformationEvent};
use smithay_color::color_management::params_creator::{ParamsError, ParamsRequest};
use smithay_color::color_management::replies::{
    Cause, DescriptionFailure, DescriptionOutcome, DescriptionReply, PreferredEvent, ReadyEvent,
};
use smithay_color::color_management::resources::DescriptionError;
use smithay_color::color_management::state::{
    get_image_description, get_surface, ManagerError, ProtocolObjects, COLOR_MANAGER_VERSION,
};
use smithay_color::color_management::{
    Chromaticities, ColorManagementCapabilities, ColorManagementHandler, ColorManagementState,
    ColorManagementSurfaceData, DescriptionResourceData, IccCreatorBuilder, IccProfile,
    ImageDescription, Luminances, MasteringLuminance, ParamsCreatorBuilder, PrimariesDef,
    ReferenceResourceData, SurfaceFeedbackResourceData, TransferFunctionDef,
};
use smithay_color::protocol::{Feature, Primaries, TransferFunction};
use wayland_protocols::wp::color_management::v1::server::{
    wp_color_manager_v1::Error as WireManagerError,
    wp_image_description_v1::{Cause as WireCause, Error as WireDescriptionError},
};

struct Objects;

impl ProtocolObjects for Objects {
    type Global = u32;
    type OutputResource = u32;
    type FeedbackResource = u32;
    type InfoResource = u32;
    type DescriptionResource = u32;
    type Output = u32;
    type Surface = u32;
}

type State = ColorManagementState<Objects>;

fn state() -> State {
    ColorManagementState::new(7, ColorManagementCapabilities::conservative())
}

fn state_with(feature: Feature) -> State {
    ColorManagementState::new(7, ColorManagementCapabilities::empty().with_feature(feature))
}

fn full_description() -> ImageDescription {
    let c = Chromaticities { r: (1, 2), g: (3, 4), b: (5, 6), w: (7, 8) };
    ImageDescription {
        primaries: Some(PrimariesDef::Custom(c)),
        transfer_function: Some(TransferFunctionDef::Power(22_000)),
        luminances: Some(Luminances { min_lum: 1, max_lum: 300, reference_lum: 203 }),
        mastering_primaries: Some(Chromaticities { w: (9, 9), ..c }),
        mastering_luminance: Some(MasteringLuminance { min_lum: 2, max_lum: 1000 }),
        max_cll: Some(900),
        max_fall: Some(500),
        icc: None,
        windows_scrgb: false,
        identity: 0,
    }
}

fn icc_description() -> ImageDescription {
    ImageDescription {
        primaries: None,
        transfer_function: None,
        luminances: None,
        mastering_primaries: None,
        mastering_luminance: None,
        max_cll: None,
        max_fall: None,
        icc: Some(IccProfile { bytes: Arc::new(vec![1, 2, 3]) }),
        windows_scrgb: false,
        identity: 0,
    }
}

#[test]
fn new_state_holds_the_default_description_only() {
    let state = state();
    assert_eq!(*state.global(), 7);
    assert_eq!(state.interner().len(), 1);
    assert!(!state.interner().is_empty());
    assert!(state.capabilities().supports_feature(Feature::Parametric));
    assert!(state.output_resources().is_empty());
    assert!(state.feedback_resources().is_empty());
    assert_eq!(COLOR_MANAGER_VERSION, 2);
}

#[test]
fn creators_need_their_features() {
    let with_icc = state_with(Feature::IccV2V4);
    assert!(with_icc.create_icc_creator().is_ok());
    assert_eq!(
        with_icc.create_parametric_creator().err(),
        Some(ManagerError::ParametricUnsupported)
    );
    let parametric = state_with(Feature::Parametric);
    let builder = parametric.create_parametric_creator().unwrap();
    assert!(builder.0.tf.is_none() && !builder.0.consumed);
    assert_eq!(parametric.create_icc_creator().err(), Some(ManagerError::IccUnsupported));
}

#[test]
fn windows_scrgb_is_interned_without_information() {
    let mut plain = state();
    assert_eq!(
        plain.create_windows_scrgb().err(),
        Some(ManagerError::WindowsScrgbUnsupported)
    );
    assert_eq!(plain.interner().len(), 1);

    let mut state = state_with(Feature::WindowsScrgb);
    let reply = state.create_windows_scrgb().unwrap();
    assert_eq!(reply.outcome, DescriptionOutcome::Ready(2));
    let description = reply.data.description().unwrap();
    assert!(description.windows_scrgb);
    assert!(reply.fresh);
    // What the flag implies is not written out.
    assert!(description.primaries.is_none());
    assert!(description.transfer_function.is_none());
    assert!(description.luminances.is_none());
    assert!(description.mastering_primaries.is_none());
    assert!(description.mastering_luminance.is_none());
    assert!(description.max_cll.is_none());
    assert!(description.max_fall.is_none());
    assert!(description.icc.is_none());
    assert_eq!(
        reply.data.get_information().err(),
        Some(DescriptionError::InformationNotAllowed)
    );
    let again = state.create_windows_scrgb().unwrap();
    assert!(!again.fresh);
    assert!(Arc::ptr_eq(&description, &again.data.description().unwrap()));
}

#[test]
fn references_hand_on_description_and_rights() {
    let mut state = state();
    let description = state.interner_mut().intern(full_description());
    for allow in [true, false] {
        let reference = ReferenceResourceData {
            description: Arc::clone(&description),
            allow_get_information: allow,
        };
        let reply = get_image_description(Some(&reference));
        assert_eq!(reply.outcome, DescriptionOutcome::Ready(2));
        assert!(Arc::ptr_eq(&reply.data.description().unwrap(), &description));
        assert_eq!(reply.data.get_information().is_ok(), allow);
    }
    let missing = get_image_description(None);
    assert_eq!(
        missing.outcome,
        DescriptionOutcome::Failed(DescriptionFailure::MissingReference)
    );
    assert!(missing.data.description().is_none());
}

#[test]
fn get_surface_is_exclusive() {
    let mut data = ColorManagementSurfaceData::new();
    assert_eq!(get_surface(&mut data, 5u32).unwrap().surface, 5);
    assert_eq!(get_surface(&mut data, 5u32).err(), Some(ManagerError::SurfaceExists));
    data.detach();
    assert!(get_surface(&mut data, 5u32).is_ok());
}

#[test]
fn manager_errors_have_the_codes_of_the_protocol() {
    let expected = [
        (
            ManagerError::SurfaceExists,
            WireManagerError::SurfaceExists,
            "wl_surface already has wp_color_management_surface_v1",
        ),
        (
            ManagerError::IccUnsupported,
            WireManagerError::UnsupportedFeature,
            "ICC v2/v4 image descriptions not supported",
        ),
        (
            ManagerError::ParametricUnsupported,
            WireManagerError::UnsupportedFeature,
            "parametric image descriptions not supported",
        ),
        (
            ManagerError::WindowsScrgbUnsupported,
            WireManagerError::UnsupportedFeature,
            "Windows-scRGB image descriptions not supported",
        ),
    ];
    for (error, wire, message) in expected {
        assert_eq!(error.code(), u32::from(wire));
        assert_eq!(error.message(), message);
    }
}

#[test]
fn descriptions_answer_for_information_as_they_may() {
    let mut state = state();
    let description = state.interner_mut().intern(full_description());
    let allowed = DescriptionResourceData::ready(Arc::clone(&description), true);
    assert!(Arc::ptr_eq(&allowed.get_information().unwrap(), &description));
    let forbidden = DescriptionResourceData::ready(description, false);
    assert_eq!(forbidden.get_information().err(), Some(DescriptionError::InformationNotAllowed));
    let inert = DescriptionResourceData::inert();
    assert_eq!(inert.get_information().err(), Some(DescriptionError::InformationNotAllowed));
    let mut not_ready = DescriptionResourceData::inert();
    not_ready.allow_get_information = true;
    assert_eq!(not_ready.get_information().err(), Some(DescriptionError::NotReady));

    let error = DescriptionError::InformationNotAllowed;
    assert_eq!(error.code(), u32::from(WireDescriptionError::NoInformation));
    assert_eq!(error.message(), "get_information not allowed for this description");
    let error = DescriptionError::NotReady;
    assert_eq!(error.code(), u32::from(WireDescriptionError::NotReady));
    assert_eq!(error.message(), "description not ready");
}

#[test]
fn failures_have_the_causes_of_the_protocol() {
    assert_eq!(Cause::LowVersion.to_wire(), u32::from(WireCause::LowVersion));
    let expected = [
        (
            DescriptionFailure::MissingReference,
            WireCause::OperatingSystem,
            "missing reference data",
        ),
        (DescriptionFailure::OutputDestroyed, WireCause::NoOutput, "wl_output destroyed"),
        (DescriptionFailure::SurfaceDestroyed, WireCause::OperatingSystem, "wl_surface destroyed"),
        (
            DescriptionFailure::NoParametricForm,
            WireCause::Unsupported,
            "preferred description has no parametric form",
        ),
    ];
    for (failure, wire, message) in expected {
        assert_eq!(failure.cause().to_wire(), u32::from(wire));
        assert_eq!(failure.message(), message);
    }
}

#[test]
fn information_tells_every_part_in_order() {
    let c = Chromaticities { r: (1, 2), g: (3, 4), b: (5, 6), w: (7, 8) };
    assert_eq!(
        emit_information_events(&full_description()),
        vec![
            InformationEvent::Primaries(c),
            InformationEvent::TfPower(22_000),
            InformationEvent::Luminances(Luminances {
                min_lum: 1,
                max_lum: 300,
                reference_lum: 203
            }),
            InformationEvent::TargetPrimaries(Chromaticities { w: (9, 9), ..c }),
            InformationEvent::TargetLuminance(MasteringLuminance { min_lum: 2, max_lum: 1000 }),
            InformationEvent::TargetMaxCll(900),
            InformationEvent::TargetMaxFall(500),
            InformationEvent::Done,
        ]
    );
}

#[test]
fn information_leaves_out_what_is_not_set() {
    assert_eq!(
        emit_information_events(&state().interner().srgb_default()),
        vec![
            InformationEvent::PrimariesNamed(Primaries::Srgb),
            InformationEvent::TfNamed(TransferFunction::Srgb),
            InformationEvent::Done,
        ]
    );
    assert_eq!(emit_information_events(&icc_description()), vec![InformationEvent::Done]);
}

#[test]
fn information_tells_parameters_apart() {
    let told = emit_information_events(&full_description());
    let mut other = full_description();
    other.max_fall = Some(501);
    assert_ne!(emit_information_events(&other), told);
    let mut other = full_description();
    other.max_fall = None;
    assert_ne!(emit_information_events(&other), told);
    let mut other = full_description();
    other.transfer_function = Some(TransferFunctionDef::Named(TransferFunction::Gamma22));
    assert_ne!(emit_information_events(&other), told);
    // The flag and the profile are not told.
    let mut other = full_description();
    other.windows_scrgb = true;
    other.icc = icc_description().icc;
    assert_eq!(emit_information_events(&other), told);
}

#[test]
fn flush_takes_what_was_queued_once() {
    let mut state = state();
    let srgb = state.interner().srgb_default();
    state.queue_info_emission(11, Arc::clone(&srgb));
    state.queue_failed_description(21, Cause::NoOutput, "gone".to_owned());
    state.queue_info_emission(12, Arc::new(icc_description()));
    let events = state.flush_pending();
    assert_eq!(events.info.len(), 2);
    assert_eq!(events.info[0].0, 11);
    assert_eq!(events.info[0].1.len(), 3);
    assert_eq!(events.info[0].1[2], InformationEvent::Done);
    assert_eq!(events.info[1], (12, vec![InformationEvent::Done]));
    assert_eq!(events.failed, vec![(21, Cause::NoOutput, "gone".to_owned())]);
    let events = state.flush_pending();
    assert!(events.info.is_empty());
    assert!(events.failed.is_empty());
}

#[test]
fn ready_and_change_events_split_the_identity() {
    let identity = 0xffff_fffe_8000_0001;
    assert_eq!(
        ReadyEvent::new(3, identity),
        ReadyEvent::Ready2 { hi: 0xffff_fffe, lo: 0x8000_0001 }
    );
    assert_eq!(
        PreferredEvent::new(2, identity),
        PreferredEvent::Changed2 { hi: 0xffff_fffe, lo: 0x8000_0001 }
    );
    assert_eq!(PreferredEvent::new(1, identity), PreferredEvent::Changed { lo: 0x8000_0001 });
    assert_eq!(ReadyEvent::new(1, 41), ReadyEvent::Ready { lo: 41 });
}

#[test]
fn replies_carry_identity_and_rights() {
    let mut state = state();
    let description = state.interner_mut().intern(full_description());
    let reply = DescriptionReply::ready(Arc::clone(&description), true);
    assert_eq!(reply.outcome, DescriptionOutcome::Ready(2));
    assert!(reply.data.allow_get_information);
    let reply = output_reply(Some(description));
    assert_eq!(reply.outcome, DescriptionOutcome::Ready(2));
    assert!(!reply.fresh);
    assert_eq!(
        reply.data.get_information().err(),
        Some(DescriptionError::InformationNotAllowed)
    );
    let reply = output_reply(None);
    assert_eq!(reply.outcome, DescriptionOutcome::Failed(DescriptionFailure::OutputDestroyed));
    assert_eq!(
        reply.data.get_information().err(),
        Some(DescriptionError::InformationNotAllowed)
    );
}

#[test]
fn preferred_reply_remembers_the_identity() {
    let mut state = state();
    let parametric = state.interner_mut().intern(full_description());
    let icc = state.interner_mut().intern(icc_description());
    let mut data = SurfaceFeedbackResourceData::new(4u32);
    assert_eq!(data.surface, 4);
    assert_eq!(data.last_sent_identity(), 0);

    let reply = preferred_reply(&mut data, None, false);
    assert_eq!(reply.outcome, DescriptionOutcome::Failed(DescriptionFailure::SurfaceDestroyed));
    let reply = preferred_reply(&mut data, Some(Arc::clone(&icc)), true);
    assert_eq!(reply.outcome, DescriptionOutcome::Failed(DescriptionFailure::NoParametricForm));
    assert_eq!(data.last_sent_identity(), 0);

    let reply = preferred_reply(&mut data, Some(parametric), true);
    assert_eq!(reply.outcome, DescriptionOutcome::Ready(2));
    assert!(reply.data.get_information().is_ok());
    assert_eq!(data.last_sent_identity(), 2);
    let reply = preferred_reply(&mut data, Some(icc), false);
    assert_eq!(reply.outcome, DescriptionOutcome::Ready(3));
    assert_eq!(data.last_sent_identity(), 3);
}

#[test]
fn registries_drop_what_is_gone() {
    let mut state = state();
    for handle in [1, 2, 3, 4] {
        state.register_output_resource(handle);
        state.register_feedback_resource(10 * handle);
    }
    let alive = state.live_output_resources(vec![None, Some("two"), Some("three"), None]);
    assert_eq!(alive, vec!["two", "three"]);
    assert_eq!(*state.output_resources(), vec![2, 3]);
    let alive = state.live_output_resources(vec![Some("two"), Some("three")]);
    assert_eq!(alive, vec!["two", "three"]);
    assert_eq!(*state.output_resources(), vec![2, 3]);
    let alive: Vec<&str> = state.live_feedback_resources(vec![None, None, None, Some("forty")]);
    assert_eq!(alive, vec!["forty"]);
    assert_eq!(*state.feedback_resources(), vec![40]);
}

/// A compositor that keeps to the default policy.
struct Plain {
    state: State,
}

impl ColorManagementHandler<Objects> for Plain {
    fn color_management_state(&mut self) -> &mut State {
        &mut self.state
    }
}

/// A compositor that recommends the description with a fixed identity.
struct Fixed {
    state: State,
    identity: u64,
    asked: Vec<u32>,
    announced: Vec<u64>,
    failed: Vec<(u32, Cause)>,
}

impl ColorManagementHandler<Objects> for Fixed {
    fn color_management_state(&mut self) -> &mut State {
        &mut self.state
    }

    fn output_image_description(&mut self, output: &u32) -> Arc<ImageDescription> {
        self.asked.push(*output);
        self.state.interner().lookup(self.identity).unwrap()
    }

    fn preferred_image_description(&mut self, surface: &u32) -> Arc<ImageDescription> {
        self.asked.push(*surface);
        self.state.interner().lookup(self.identity).unwrap()
    }

    fn new_image_description(&mut self, description: &Arc<ImageDescription>) {
        self.announced.push(description.identity);
    }

    fn image_description_failed(&mut self, resource: &u32, cause: Cause) {
        self.failed.push((*resource, cause));
    }
}

fn fixed() -> Fixed {
    let mut state = state();
    let identity = state.interner_mut().intern(icc_description()).identity;
    Fixed { state, identity, asked: Vec::new(), announced: Vec::new(), failed: Vec::new() }
}

#[test]
fn default_policy_is_srgb() {
    let mut plain = Plain { state: state() };
    plain.state.interner_mut().intern(full_description());
    assert_eq!(plain.output_image_description(&1).identity, 1);
    assert_eq!(plain.preferred_image_description(&1).identity, 1);
    let srgb = plain.state.interner().srgb_default();
    plain.new_image_description(&srgb);
    plain.image_description_failed(&3, Cause::Unsupported);
    assert_eq!(plain.state.interner().len(), 2);
}

#[test]
fn output_description_is_what_the_compositor_advertises() {
    let mut compositor = fixed();
    let reply = get_output_image_description(&mut compositor, Some(&8));
    assert_eq!(reply.outcome, DescriptionOutcome::Ready(2));
    assert_eq!(
        reply.data.get_information().err(),
        Some(DescriptionError::InformationNotAllowed)
    );
    assert_eq!(compositor.asked, vec![8]);
    let reply = get_output_image_description(&mut compositor, None);
    assert_eq!(reply.outcome, DescriptionOutcome::Failed(DescriptionFailure::OutputDestroyed));
    assert_eq!(compositor.asked, vec![8]);
}

#[test]
fn preferred_description_is_what_the_compositor_recommends() {
    let mut compositor = fixed();
    let mut data = SurfaceFeedbackResourceData::new(6u32);
    let reply = handle_feedback_get_preferred(&mut compositor, &mut data, Some(&6), false);
    assert_eq!(reply.outcome, DescriptionOutcome::Ready(2));
    assert_eq!(data.last_sent_identity(), 2);
    let reply = handle_feedback_get_preferred(&mut compositor, &mut data, Some(&6), true);
    assert_eq!(reply.outcome, DescriptionOutcome::Failed(DescriptionFailure::NoParametricForm));
    let reply = handle_feedback_get_preferred(&mut compositor, &mut data, None, true);
    assert_eq!(reply.outcome, DescriptionOutcome::Failed(DescriptionFailure::SurfaceDestroyed));
    assert_eq!(data.last_sent_identity(), 2);
    assert_eq!(compositor.asked, vec![6, 6]);
}

#[test]
fn fresh_descriptions_are_announced_once() {
    let mut compositor = fixed();
    let make = |compositor: &mut Fixed| {
        let caps = ColorManagementCapabilities::conservative();
        let mut builder = ParamsCreatorBuilder::default();
        let tf = TransferFunction::Hlg.to_wire();
        builder.set_parameter(&caps, ParamsRequest::SetTfNamed { tf }).unwrap();
        let primaries = Primaries::Bt2020.to_wire();
        builder.set_parameter(&caps, ParamsRequest::SetPrimariesNamed { primaries }).unwrap();
        let reply = create_parametric_description(compositor, &mut builder).unwrap();
        assert_eq!(
            create_parametric_description(compositor, &mut builder).err(),
            Some(ParamsError::CreateTwice)
        );
        reply
    };
    let reply = make(&mut compositor);
    assert_eq!(reply.outcome, DescriptionOutcome::Ready(3));
    assert!(reply.fresh);
    assert_eq!(compositor.announced, vec![3]);
    let reply = make(&mut compositor);
    assert_eq!(reply.outcome, DescriptionOutcome::Ready(3));
    assert!(!reply.fresh);
    assert_eq!(compositor.announced, vec![3]);
}

#[test]
fn icc_descriptions_are_announced_if_fresh() {
    let mut compositor = fixed();
    for (bytes, announced) in [(vec![1, 2, 3], vec![]), (vec![4], vec![3]), (vec![4], vec![3])] {
        let length = bytes.len() as u32;
        let mut builder = IccCreatorBuilder::default();
        let plan = builder.plan_icc_file(0, length, Some(u64::from(length))).unwrap();
        builder.set_icc_file(plan, Some(bytes)).unwrap();
        assert!(create_icc_description(&mut compositor, &mut builder).is_ok());
        assert_eq!(compositor.announced, announced);
    }
    let mut empty = IccCreatorBuilder::default();
    assert_eq!(
        create_icc_description(&mut compositor, &mut empty).err(),
        Some(IccError::Incomplete)
    );
    assert_eq!(compositor.announced, vec![3]);
}

#[test]
fn windows_scrgb_is_announced_if_fresh() {
    let mut compositor = fixed();
    assert_eq!(
        create_windows_scrgb_description(&mut compositor).err(),
        Some(ManagerError::WindowsScrgbUnsupported)
    );
    assert!(compositor.announced.is_empty());
    compositor.state = state_with(Feature::WindowsScrgb);
    assert!(create_windows_scrgb_description(&mut compositor).unwrap().fresh);
    assert!(!create_windows_scrgb_description(&mut compositor).unwrap().fresh);
    assert_eq!(compositor.announced, vec![2]);
}

#[test]
fn announcing_goes_by_freshness() {
    let mut compositor = fixed();
    let srgb = compositor.state.interner().srgb_default();
    announce_description(&mut compositor, &srgb, false);
    assert!(compositor.announced.is_empty());
    announce_description(&mut compositor, &srgb, true);
    assert_eq!(compositor.announced, vec![1]);
}

#[test]
fn completion_sends_ready_or_reports_and_queues_the_failure() {
    let mut compositor = fixed();
    let identity = 0x0000_0003_0000_0004;
    let ready = DescriptionOutcome::Ready(identity);
    assert_eq!(
        complete_description(&mut compositor, 1, 2, ready),
        Some(ReadyEvent::Ready2 { hi: 3, lo: 4 })
    );
    assert_eq!(
        complete_description(&mut compositor, 1, 1, ready),
        Some(ReadyEvent::Ready { lo: 4 })
    );
    assert!(compositor.failed.is_empty());
    let failed = DescriptionOutcome::Failed(DescriptionFailure::NoParametricForm);
    assert_eq!(complete_description(&mut compositor, 5, 2, failed), None);
    assert_eq!(compositor.failed, vec![(5, Cause::Unsupported)]);
    assert_eq!(
        compositor.state.flush_pending().failed,
        vec![(
            5,
            Cause::Unsupported,
            "preferred description has no parametric form".to_owned()
        )]
    );
    report_failure(&mut compositor, &6, DescriptionFailure::OutputDestroyed);
    assert_eq!(compositor.failed[1], (6, Cause::NoOutput));
}
