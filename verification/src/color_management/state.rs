//! Compositor-wide state of the color-management protocol, and the requests of
//! `wp_color_manager_v1`.
use std::sync::Arc;

use vstd::prelude::*;

use crate::advertised::lists;
use crate::attachment::{slot_after, SlotOp};
use crate::color_management::capabilities::{CapabilitySets, ColorManagementCapabilities};
use crate::color_management::description::{
    interned, valid_registry, DescriptionContent, ImageDescription, ImageDescriptionInterner,
};
use crate::color_management::icc_creator::IccCreatorBuilder;
use crate::color_management::information::{
    emit_information_events, information_events, lemma_information_ends_with_done,
    InformationEvent,
};
use crate::color_management::params_creator::{ParamsCreatorBuilder, ParamsCreatorBuilderInner};
use crate::color_management::registry::{live_entries, live_handles, reap};
use crate::color_management::replies::{
    Cause, DescriptionFailure, DescriptionReply,
};
use crate::color_management::resources::{ReferenceResourceData, SurfaceResourceData};
use crate::color_management::surface_state::ColorManagementSurfaceData;
use crate::protocol::{Feature, Primaries, RenderIntent, TransferFunction};

verus! {

/// The version of `wp_color_manager_v1` that is advertised.
pub const COLOR_MANAGER_VERSION: u32 = 2;

/// The types of the objects that a Wayland server library hands to the compositor.
///
/// The library stores and returns values of these types and never looks into them.
pub trait ProtocolObjects {
    /// The registered global.
    type Global;

    /// A weak handle to a `wp_color_management_output_v1`.
    type OutputResource;

    /// A weak handle to a `wp_color_management_surface_feedback_v1`.
    type FeedbackResource;

    /// A `wp_image_description_info_v1`.
    type InfoResource;

    /// A `wp_image_description_v1`.
    type DescriptionResource;

    /// A `wl_output`.
    type Output;

    /// A `wl_surface`.
    type Surface;
}

/// Protocol errors of `wp_color_manager_v1`.
#[derive(Debug, Clone, Copy, PartialEq, Eq, Structural)]
pub enum ManagerError {
    /// `get_surface` for a surface that has the interface already.
    SurfaceExists,
    /// `create_icc_creator` where the feature is not advertised.
    IccUnsupported,
    /// `create_parametric_creator` where the feature is not advertised.
    ParametricUnsupported,
    /// `create_windows_scrgb` where the feature is not advertised.
    WindowsScrgbUnsupported,
}

impl ManagerError {
    /// The error code on the wire.
    pub open spec fn spec_code(self) -> u32 {
        match self {
            ManagerError::SurfaceExists => 1,
            ManagerError::IccUnsupported => 0,
            ManagerError::ParametricUnsupported => 0,
            ManagerError::WindowsScrgbUnsupported => 0,
        }
    }

    /// The message posted with the error.
    pub open spec fn spec_message(self) -> Seq<char> {
        match self {
            ManagerError::SurfaceExists => "wl_surface already has wp_color_management_surface_v1"@,
            ManagerError::IccUnsupported => "ICC v2/v4 image descriptions not supported"@,
            ManagerError::ParametricUnsupported => "parametric image descriptions not supported"@,
            ManagerError::WindowsScrgbUnsupported =>
                "Windows-scRGB image descriptions not supported"@,
        }
    }

    /// The error code on the wire.
    pub fn code(self) -> (code: u32)
        ensures
            code == self.spec_code(),
    {
        match self {
            ManagerError::SurfaceExists => 1,
            ManagerError::IccUnsupported => 0,
            ManagerError::ParametricUnsupported => 0,
            ManagerError::WindowsScrgbUnsupported => 0,
        }
    }

    /// The message posted with the error.
    pub fn message(self) -> (message: &'static str)
        ensures
            message@ == self.spec_message(),
    {
        match self {
            ManagerError::SurfaceExists => "wl_surface already has wp_color_management_surface_v1",
            ManagerError::IccUnsupported => "ICC v2/v4 image descriptions not supported",
            ManagerError::ParametricUnsupported => "parametric image descriptions not supported",
            ManagerError::WindowsScrgbUnsupported =>
                "Windows-scRGB image descriptions not supported",
        }
    }
}

/// An event that `wp_color_manager_v1` sends when it is bound.
#[derive(Debug, Clone, Copy, PartialEq, Eq, Structural)]
pub enum BindEvent {
    /// `supported_intent`.
    SupportedIntent(RenderIntent),
    /// `supported_feature`.
    SupportedFeature(Feature),
    /// `supported_tf_named`.
    SupportedTfNamed(TransferFunction),
    /// `supported_primaries_named`.
    SupportedPrimariesNamed(Primaries),
    /// `done`.
    Done,
}

/// The events for the given lists: intents, features, transfer functions, primaries, `done`.
pub open spec fn bind_sequence(
    intents: Seq<RenderIntent>,
    features: Seq<Feature>,
    transfer_functions: Seq<TransferFunction>,
    primaries: Seq<Primaries>,
) -> Seq<BindEvent> {
    intents.map_values(|v: RenderIntent| BindEvent::SupportedIntent(v))
        + features.map_values(|v: Feature| BindEvent::SupportedFeature(v))
        + transfer_functions.map_values(|v: TransferFunction| BindEvent::SupportedTfNamed(v))
        + primaries.map_values(|v: Primaries| BindEvent::SupportedPrimariesNamed(v))
        + seq![BindEvent::Done]
}

/// Whether `events` announces what is advertised: each member of each set once, then
/// `done`.
pub open spec fn announces(events: Seq<BindEvent>, caps: CapabilitySets) -> bool {
    exists|
        intents: Seq<RenderIntent>,
        features: Seq<Feature>,
        transfer_functions: Seq<TransferFunction>,
        primaries: Seq<Primaries>,
    |
        {
            &&& lists(intents, caps.intents)
            &&& lists(features, caps.features)
            &&& lists(transfer_functions, caps.transfer_functions)
            &&& lists(primaries, caps.primaries)
            &&& events == #[trigger] bind_sequence(
                intents,
                features,
                transfer_functions,
                primaries,
            )
        }
}

/// The events that announce the capabilities to a client that binds the manager.
pub fn bind_events(caps: &ColorManagementCapabilities) -> (events: Vec<BindEvent>)
    ensures
        announces(events@, caps@),
{
    let intents = caps.intents();
    let features = caps.features();
    let transfer_functions = caps.transfer_functions();
    let primaries = caps.primaries();
    let ghost part1 = intents@.map_values(|v: RenderIntent| BindEvent::SupportedIntent(v));
    let ghost part2 = features@.map_values(|v: Feature| BindEvent::SupportedFeature(v));
    let ghost part3 = transfer_functions@.map_values(
        |v: TransferFunction| BindEvent::SupportedTfNamed(v),
    );
    let ghost part4 = primaries@.map_values(|v: Primaries| BindEvent::SupportedPrimariesNamed(v));
    let mut events: Vec<BindEvent> = Vec::new();
    for i in 0..intents.len()
        invariant
            part1 == intents@.map_values(|v: RenderIntent| BindEvent::SupportedIntent(v)),
            events@ =~= part1.take(i as int),
    {
        events.push(BindEvent::SupportedIntent(intents[i]));
    }
    for i in 0..features.len()
        invariant
            part2 == features@.map_values(|v: Feature| BindEvent::SupportedFeature(v)),
            events@ =~= part1 + part2.take(i as int),
    {
        events.push(BindEvent::SupportedFeature(features[i]));
    }
    for i in 0..transfer_functions.len()
        invariant
            part3 == transfer_functions@.map_values(
                |v: TransferFunction| BindEvent::SupportedTfNamed(v),
            ),
            events@ =~= part1 + part2 + part3.take(i as int),
    {
        events.push(BindEvent::SupportedTfNamed(transfer_functions[i]));
    }
    for i in 0..primaries.len()
        invariant
            part4 == primaries@.map_values(|v: Primaries| BindEvent::SupportedPrimariesNamed(v)),
            events@ =~= part1 + part2 + part3 + part4.take(i as int),
    {
        events.push(BindEvent::SupportedPrimariesNamed(primaries[i]));
    }
    events.push(BindEvent::Done);
    assert(events@ =~= bind_sequence(intents@, features@, transfer_functions@, primaries@));
    events
}

/// A `failed` event that waits to be sent: on which object, with which cause and message.
pub type FailedDescription<R> = (R, Cause, Seq<char>);

/// What [`ColorManagementState`] holds.
#[verifier::ext_equal]
pub struct ManagementView<W: ProtocolObjects> {
    /// The registered global.
    pub global: W::Global,
    /// The interned descriptions.
    pub registry: Seq<DescriptionContent>,
    /// What is advertised.
    pub capabilities: CapabilitySets,
    /// The output interfaces to notify.
    pub output_resources: Seq<W::OutputResource>,
    /// The feedback interfaces to notify.
    pub feedback_resources: Seq<W::FeedbackResource>,
    /// The descriptions to inform about.
    pub pending_info: Seq<(W::InfoResource, Arc<ImageDescription>)>,
    /// The failures to report.
    pub pending_failed: Seq<FailedDescription<W::DescriptionResource>>,
}

/// Compositor-wide state for the color-management protocol.
///
/// Holds the registered global, the description interner, the advertised capabilities, the
/// interfaces to notify of changes, and the events that may only be sent once the current
/// request has been dispatched: those that destroy the object they are sent on.
pub struct ColorManagementState<W: ProtocolObjects> {
    global: W::Global,
    interner: ImageDescriptionInterner,
    capabilities: ColorManagementCapabilities,
    output_resources: Vec<W::OutputResource>,
    feedback_resources: Vec<W::FeedbackResource>,
    pending_info_emissions: Vec<(W::InfoResource, Arc<ImageDescription>)>,
    pending_failed_descriptions: Vec<(W::DescriptionResource, Cause, String)>,
}

impl<W: ProtocolObjects> View for ColorManagementState<W> {
    type V = ManagementView<W>;

    closed spec fn view(&self) -> ManagementView<W> {
        ManagementView::<W> {
            global: self.global,
            registry: self.interner@,
            capabilities: self.capabilities@,
            output_resources: self.output_resources@,
            feedback_resources: self.feedback_resources@,
            pending_info: self.pending_info_emissions@,
            pending_failed: failed_view(self.pending_failed_descriptions@),
        }
    }
}

/// Failures with their messages as sequences of characters.
pub open spec fn failed_view<R>(failed: Seq<(R, Cause, String)>) -> Seq<FailedDescription<R>> {
    Seq::new(failed.len(), |i: int| (failed[i].0, failed[i].1, failed[i].2@))
}

/// The events that were waiting to be sent.
pub struct PendingEvents<W: ProtocolObjects> {
    /// For each information object, its events, `done` last.
    pub info: Vec<(W::InfoResource, Vec<InformationEvent>)>,
    /// The descriptions to report as failed, after the information events.
    pub failed: Vec<(W::DescriptionResource, Cause, String)>,
}

impl<W: ProtocolObjects> PendingEvents<W> {
    /// Whether these are the events that `state` had waiting, in order.
    pub open spec fn are_pending_in(self, state: ManagementView<W>) -> bool {
        &&& self.info@.len() == state.pending_info.len()
        &&& forall|i: int|
            0 <= i < self.info@.len() ==> {
                &&& (#[trigger] self.info@[i]).0 == state.pending_info[i].0
                &&& self.info@[i].1@ == information_events(state.pending_info[i].1@)
            }
        &&& failed_view(self.failed@) == state.pending_failed
    }
}

impl<W: ProtocolObjects> ColorManagementState<W> {
    /// State for a compositor that registered `global` and advertises `capabilities`.
    pub fn new(global: W::Global, capabilities: ColorManagementCapabilities) -> (state: Self)
        ensures
            state@ == (ManagementView::<W> {
                global,
                registry: seq![DescriptionContent::srgb()],
                capabilities: capabilities@,
                output_resources: seq![],
                feedback_resources: seq![],
                pending_info: seq![],
                pending_failed: seq![],
            }),
    {
        let state = ColorManagementState {
            global,
            interner: ImageDescriptionInterner::new(),
            capabilities,
            output_resources: Vec::new(),
            feedback_resources: Vec::new(),
            pending_info_emissions: Vec::new(),
            pending_failed_descriptions: Vec::new(),
        };
        assert(state@.pending_failed =~= seq![]);
        state
    }

    /// Takes the events that wait to be sent.
    ///
    /// Must not be called while a request is dispatched: `done` and `failed` make the object
    /// unusable, and the dispatcher still has to store the data of objects that the request
    /// created.
    pub fn flush_pending(&mut self) -> (events: PendingEvents<W>)
        ensures
            events.are_pending_in(old(self)@),
            final(self)@ == (ManagementView::<W> {
                pending_info: seq![],
                pending_failed: seq![],
                ..old(self)@
            }),
    {
        let mut pending: Vec<(W::InfoResource, Arc<ImageDescription>)> = Vec::new();
        core::mem::swap(&mut self.pending_info_emissions, &mut pending);
        let mut failed: Vec<(W::DescriptionResource, Cause, String)> = Vec::new();
        core::mem::swap(&mut self.pending_failed_descriptions, &mut failed);
        assert(self@.pending_failed =~= seq![]);
        let ghost queue = pending@;
        let mut info: Vec<(W::InfoResource, Vec<InformationEvent>)> = Vec::new();
        for entry in iter: pending
            invariant
                iter.seq() == queue,
                info@.len() == iter.index(),
                forall|i: int|
                    0 <= i < info@.len() ==> {
                        &&& (#[trigger] info@[i]).0 == queue[i].0
                        &&& info@[i].1@ == information_events(queue[i].1@)
                    },
        {
            let (resource, description) = entry;
            let events = emit_information_events(&description);
            info.push((resource, events));
        }
        PendingEvents { info, failed }
    }

    /// Queues the information events about `description` on `info`.
    pub fn queue_info_emission(
        &mut self,
        info: W::InfoResource,
        description: Arc<ImageDescription>,
    )
        ensures
            final(self)@ == (ManagementView::<W> {
                pending_info: old(self)@.pending_info.push((info, description)),
                ..old(self)@
            }),
    {
        self.pending_info_emissions.push((info, description));
    }

    /// Queues a `failed` event.
    pub fn queue_failed_description(
        &mut self,
        resource: W::DescriptionResource,
        cause: Cause,
        msg: String,
    )
        ensures
            final(self)@ == (ManagementView::<W> {
                pending_failed: old(self)@.pending_failed.push((resource, cause, msg@)),
                ..old(self)@
            }),
    {
        self.pending_failed_descriptions.push((resource, cause, msg));
        assert(self@.pending_failed =~= old(self)@.pending_failed.push((resource, cause, msg@)));
    }

    /// The registered global.
    pub fn global(&self) -> (global: &W::Global)
        ensures
            *global == self@.global,
    {
        &self.global
    }

    /// The advertised capabilities.
    pub fn capabilities(&self) -> (capabilities: &ColorManagementCapabilities)
        ensures
            capabilities@ == self@.capabilities,
    {
        &self.capabilities
    }

    /// The description interner.
    pub fn interner(&self) -> (interner: &ImageDescriptionInterner)
        ensures
            interner@ == self@.registry,
    {
        &self.interner
    }

    /// The description interner, to intern with.
    pub fn interner_mut(&mut self) -> (interner: &mut ImageDescriptionInterner)
        ensures
            interner@ == old(self)@.registry,
            final(self)@ == (ManagementView::<W> { registry: final(interner)@, ..old(self)@ }),
    {
        &mut self.interner
    }

    /// Registers an output interface to be notified of changes.
    pub fn register_output_resource(&mut self, resource: W::OutputResource)
        ensures
            final(self)@ == (ManagementView::<W> {
                output_resources: old(self)@.output_resources.push(resource),
                ..old(self)@
            }),
    {
        self.output_resources.push(resource);
    }

    /// Registers a feedback interface to be notified of changes.
    pub fn register_feedback_resource(&mut self, resource: W::FeedbackResource)
        ensures
            final(self)@ == (ManagementView::<W> {
                feedback_resources: old(self)@.feedback_resources.push(resource),
                ..old(self)@
            }),
    {
        self.feedback_resources.push(resource);
    }

    /// The registered output interfaces, dead ones among them.
    pub fn output_resources(&self) -> (resources: &Vec<W::OutputResource>)
        ensures
            resources@ == self@.output_resources,
    {
        &self.output_resources
    }

    /// The registered feedback interfaces, dead ones among them.
    pub fn feedback_resources(&self) -> (resources: &Vec<W::FeedbackResource>)
        ensures
            resources@ == self@.feedback_resources,
    {
        &self.feedback_resources
    }

    /// Drops the output interfaces that are gone and returns the live ones.
    ///
    /// `upgraded` holds, for each registered interface, its strong handle, or `None` if it
    /// is gone.
    pub fn live_output_resources<S>(&mut self, upgraded: Vec<Option<S>>) -> (alive: Vec<S>)
        requires
            upgraded@.len() == old(self)@.output_resources.len(),
        ensures
            alive@ == live_handles(upgraded@),
            final(self)@ == (ManagementView::<W> {
                output_resources: live_entries(old(self)@.output_resources, upgraded@),
                ..old(self)@
            }),
    {
        reap(&mut self.output_resources, upgraded)
    }

    /// Drops the feedback interfaces that are gone and returns the live ones.
    pub fn live_feedback_resources<S>(&mut self, upgraded: Vec<Option<S>>) -> (alive: Vec<S>)
        requires
            upgraded@.len() == old(self)@.feedback_resources.len(),
        ensures
            alive@ == live_handles(upgraded@),
            final(self)@ == (ManagementView::<W> {
                feedback_resources: live_entries(old(self)@.feedback_resources, upgraded@),
                ..old(self)@
            }),
    {
        reap(&mut self.feedback_resources, upgraded)
    }

    /// Handles `create_icc_creator`.
    pub fn create_icc_creator(&self) -> (result: Result<IccCreatorBuilder, ManagerError>)
        ensures
            match result {
                Ok(builder) => {
                    &&& self@.capabilities.features.contains(Feature::IccV2V4)
                    &&& builder.0.profile() is None
                    &&& !builder.0.consumed
                },
                Err(error) => {
                    &&& !self@.capabilities.features.contains(Feature::IccV2V4)
                    &&& error == ManagerError::IccUnsupported
                },
            },
    {
        if !self.capabilities.supports_feature(Feature::IccV2V4) {
            return Err(ManagerError::IccUnsupported);
        }
        Ok(IccCreatorBuilder::default())
    }

    /// Handles `create_parametric_creator`.
    pub fn create_parametric_creator(&self) -> (result: Result<ParamsCreatorBuilder, ManagerError>)
        ensures
            match result {
                Ok(builder) => {
                    &&& self@.capabilities.features.contains(Feature::Parametric)
                    &&& builder.0 == ParamsCreatorBuilderInner::blank(false)
                },
                Err(error) => {
                    &&& !self@.capabilities.features.contains(Feature::Parametric)
                    &&& error == ManagerError::ParametricUnsupported
                },
            },
    {
        if !self.capabilities.supports_feature(Feature::Parametric) {
            return Err(ManagerError::ParametricUnsupported);
        }
        Ok(ParamsCreatorBuilder::default())
    }

    /// Handles `create_windows_scrgb`: interns the Windows-scRGB description, about which no
    /// information may be asked.
    pub fn create_windows_scrgb(&mut self) -> (result: Result<DescriptionReply, ManagerError>)
        ensures
            match windows_scrgb_created(old(self)@.capabilities) {
                Ok(content) => {
                    &&& final(self)@ == (ManagementView::<W> {
                        registry: interned(old(self)@.registry, content),
                        ..old(self)@
                    })
                    &&& valid_registry(final(self)@.registry)
                    &&& result matches Ok(reply)
                    &&& reply.is_interned(old(self)@.registry, content, false)
                },
                Err(error) => {
                    &&& final(self)@ == old(self)@
                    &&& result matches Err(e)
                    &&& e == error
                },
            },
    {
        if !self.capabilities.supports_feature(Feature::WindowsScrgb) {
            return Err(ManagerError::WindowsScrgbUnsupported);
        }
        let description = ImageDescription {
            primaries: None,
            transfer_function: None,
            luminances: None,
            mastering_primaries: None,
            mastering_luminance: None,
            max_cll: None,
            max_fall: None,
            icc: None,
            windows_scrgb: true,
            identity: 0,
        };
        Ok(DescriptionReply::intern(&mut self.interner, description))
    }
}

/// The description that `create_windows_scrgb` makes, or the error that it raises.
pub open spec fn windows_scrgb_created(caps: CapabilitySets) -> Result<
    DescriptionContent,
    ManagerError,
> {
    if caps.features.contains(Feature::WindowsScrgb) {
        Ok(DescriptionContent::windows_scrgb())
    } else {
        Err(ManagerError::WindowsScrgbUnsupported)
    }
}

/// The error that `get_surface` raises on a surface on which the interface is attached or
/// not.
pub open spec fn get_surface_error(attached: bool) -> Option<ManagerError> {
    if attached {
        Some(ManagerError::SurfaceExists)
    } else {
        None
    }
}

/// Handles `get_surface`: data for the new interface, unless the surface has one already.
pub fn get_surface<S>(data: &mut ColorManagementSurfaceData, surface: S) -> (result: Result<
    SurfaceResourceData<S>,
    ManagerError,
>)
    ensures
        final(data)@ == slot_after(SlotOp::Attach),
        result == (match get_surface_error(old(data)@) {
            Some(error) => Err(error),
            None => Ok(SurfaceResourceData { surface }),
        }),
{
    if data.is_resource_attached_or_attach() {
        return Err(ManagerError::SurfaceExists);
    }
    Ok(SurfaceResourceData { surface })
}

/// Handles `wp_color_manager_v1.get_image_description`: the description that a reference
/// points at. `None` stands for a reference without data.
pub fn get_image_description(reference: Option<&ReferenceResourceData>) -> (reply: DescriptionReply)
    ensures
        match reference {
            Some(data) => reply.is_ready(data.description, data.allow_get_information),
            None => reply.is_failed(DescriptionFailure::MissingReference),
        },
{
    match reference {
        Some(data) => {
            DescriptionReply::ready(Arc::clone(&data.description), data.allow_get_information)
        },
        None => DescriptionReply::failed(DescriptionFailure::MissingReference),
    }
}

/// The announcement is complete and exact: a value is announced once if it is advertised,
/// and not at all otherwise, and `done` comes last.
pub proof fn lemma_bind_announces_exactly(events: Seq<BindEvent>, caps: CapabilitySets)
    requires
        announces(events, caps),
    ensures
        events.len() > 0 && events.last() == BindEvent::Done,
        events.no_duplicates(),
        forall|v: RenderIntent|
            events.contains(BindEvent::SupportedIntent(v)) <==> #[trigger] caps.intents.contains(v),
        forall|v: Feature|
            events.contains(BindEvent::SupportedFeature(v)) <==> #[trigger] caps.features.contains(
                v,
            ),
        forall|v: TransferFunction|
            events.contains(BindEvent::SupportedTfNamed(v))
                <==> #[trigger] caps.transfer_functions.contains(v),
        forall|v: Primaries|
            events.contains(BindEvent::SupportedPrimariesNamed(v))
                <==> #[trigger] caps.primaries.contains(v),
{
    let (intents, features, tfs, primaries) = choose|
        intents: Seq<RenderIntent>,
        features: Seq<Feature>,
        tfs: Seq<TransferFunction>,
        primaries: Seq<Primaries>,
    |
        {
            &&& lists(intents, caps.intents)
            &&& lists(features, caps.features)
            &&& lists(tfs, caps.transfer_functions)
            &&& lists(primaries, caps.primaries)
            &&& events == #[trigger] bind_sequence(intents, features, tfs, primaries)
        };
    let n1 = intents.len() as int;
    let n2 = n1 + features.len();
    let n3 = n2 + tfs.len();
    let n4 = n3 + primaries.len();
    assert(events.len() == n4 + 1);
    assert forall|i: int| 0 <= i < n1 implies #[trigger] events[i] == BindEvent::SupportedIntent(
        intents[i],
    ) by {}
    assert forall|i: int| n1 <= i < n2 implies #[trigger] events[i] == BindEvent::SupportedFeature(
        features[i - n1],
    ) by {}
    assert forall|i: int| n2 <= i < n3 implies #[trigger] events[i] == BindEvent::SupportedTfNamed(
        tfs[i - n2],
    ) by {}
    assert forall|i: int| n3 <= i < n4 implies #[trigger] events[i]
        == BindEvent::SupportedPrimariesNamed(primaries[i - n3]) by {}
    assert(events[n4] == BindEvent::Done);
    assert forall|v: RenderIntent|
        events.contains(BindEvent::SupportedIntent(v)) <==> #[trigger] caps.intents.contains(v) by {
        assert(intents.to_set().contains(v) <==> intents.contains(v));
        if intents.contains(v) {
            let i = intents.index_of(v);
            assert(events[i] == BindEvent::SupportedIntent(v));
        }
    }
    assert forall|v: Feature|
        events.contains(BindEvent::SupportedFeature(v)) <==> #[trigger] caps.features.contains(
            v,
        ) by {
        assert(features.to_set().contains(v) <==> features.contains(v));
        if features.contains(v) {
            let i = features.index_of(v);
            assert(events[n1 + i] == BindEvent::SupportedFeature(v));
        }
    }
    assert forall|v: TransferFunction|
        events.contains(BindEvent::SupportedTfNamed(v))
            <==> #[trigger] caps.transfer_functions.contains(v) by {
        assert(tfs.to_set().contains(v) <==> tfs.contains(v));
        if tfs.contains(v) {
            let i = tfs.index_of(v);
            assert(events[n2 + i] == BindEvent::SupportedTfNamed(v));
        }
    }
    assert forall|v: Primaries|
        events.contains(BindEvent::SupportedPrimariesNamed(v))
            <==> #[trigger] caps.primaries.contains(v) by {
        assert(primaries.to_set().contains(v) <==> primaries.contains(v));
        if primaries.contains(v) {
            let i = primaries.index_of(v);
            assert(events[n3 + i] == BindEvent::SupportedPrimariesNamed(v));
        }
    }
}

/// Nothing is sent twice: the events taken from a state that has just been flushed are none.
pub proof fn lemma_flush_leaves_nothing<W: ProtocolObjects>(
    flushed: ManagementView<W>,
    events: PendingEvents<W>,
)
    requires
        flushed.pending_info.len() == 0,
        flushed.pending_failed.len() == 0,
        events.are_pending_in(flushed),
    ensures
        events.info@.len() == 0,
        events.failed@.len() == 0,
{
    assert(failed_view(events.failed@).len() == events.failed@.len());
}

/// No information is lost: an information object that is queued is among those taken next,
/// at its place, with the events about its description, `done` last.
pub proof fn lemma_queued_information_is_sent<W: ProtocolObjects>(
    state: ManagementView<W>,
    events: PendingEvents<W>,
    i: int,
)
    requires
        events.are_pending_in(state),
        0 <= i < state.pending_info.len(),
    ensures
        i < events.info@.len(),
        events.info@[i].0 == state.pending_info[i].0,
        events.info@[i].1@ == information_events(state.pending_info[i].1@),
        events.info@[i].1@.last() == InformationEvent::Done,
{
    assert(events.info@[i].0 == state.pending_info[i].0);
    let told = information_events(state.pending_info[i].1@);
    lemma_information_ends_with_done(state.pending_info[i].1@, told.len() - 1);
}

/// No failure is lost: a failure that is queued is among those taken next, at its place,
/// with its cause and message.
pub proof fn lemma_queued_failure_is_sent<W: ProtocolObjects>(
    state: ManagementView<W>,
    events: PendingEvents<W>,
    i: int,
)
    requires
        events.are_pending_in(state),
        0 <= i < state.pending_failed.len(),
    ensures
        i < events.failed@.len(),
        events.failed@[i].0 == state.pending_failed[i].0,
        events.failed@[i].1 == state.pending_failed[i].1,
        events.failed@[i].2@ == state.pending_failed[i].2,
{
    assert(failed_view(events.failed@)[i] == state.pending_failed[i]);
}

/// The place of an event in the announcement.
pub open spec fn bind_rank(event: BindEvent) -> int {
    match event {
        BindEvent::SupportedIntent(_) => 0,
        BindEvent::SupportedFeature(_) => 1,
        BindEvent::SupportedTfNamed(_) => 2,
        BindEvent::SupportedPrimariesNamed(_) => 3,
        BindEvent::Done => 4,
    }
}

/// The announcement goes by intents, features, transfer functions and primaries, then `done`.
pub proof fn lemma_bind_is_in_order(events: Seq<BindEvent>, caps: CapabilitySets, i: int, j: int)
    requires
        announces(events, caps),
        0 <= i <= j < events.len(),
    ensures
        bind_rank(events[i]) <= bind_rank(events[j]),
{
}

/// `create_windows_scrgb` succeeds exactly if the feature is advertised, and makes the
/// description that says nothing but that it is Windows-scRGB.
pub proof fn lemma_windows_scrgb_created(caps: CapabilitySets)
    ensures
        caps.features.contains(Feature::WindowsScrgb) ==> (windows_scrgb_created(caps) matches Ok(
            content,
        ) && {
            &&& content.windows_scrgb
            &&& content.primaries is None
            &&& content.transfer_function is None
            &&& content.luminances is None
            &&& content.mastering_primaries is None
            &&& content.mastering_luminance is None
            &&& content.max_cll is None
            &&& content.max_fall is None
            &&& content.icc is None
        }),
        !caps.features.contains(Feature::WindowsScrgb) ==> windows_scrgb_created(caps) == Err::<
            DescriptionContent,
            _,
        >(ManagerError::WindowsScrgbUnsupported),
{
}

/// `get_surface` is refused on a surface that has the interface, and on no other.
pub proof fn lemma_get_surface_errors(attached: bool)
    ensures
        attached ==> get_surface_error(attached) == Some(ManagerError::SurfaceExists),
        !attached ==> get_surface_error(attached) is None,
{
}

/// What is taken is what was queued and no more: as many information objects and as many
/// failures.
pub proof fn lemma_flush_adds_nothing<W: ProtocolObjects>(
    state: ManagementView<W>,
    events: PendingEvents<W>,
)
    requires
        events.are_pending_in(state),
    ensures
        events.info@.len() == state.pending_info.len(),
        events.failed@.len() == state.pending_failed.len(),
{
    assert(failed_view(events.failed@).len() == events.failed@.len());
}

/// Of a failure, the object, the cause and the characters of the message are kept.
pub proof fn lemma_failure_is_kept_whole<R>(failed: Seq<(R, Cause, String)>, i: int)
    requires
        0 <= i < failed.len(),
    ensures
        failed_view(failed).len() == failed.len(),
        failed_view(failed)[i].0 == failed[i].0,
        failed_view(failed)[i].1 == failed[i].1,
        failed_view(failed)[i].2 == failed[i].2@,
{
}

} // verus!
