//! Compositor-wide state of the color-representation protocol, and the requests of
//! `wp_color_representation_manager_v1`.
use vstd::prelude::*;

use crate::advertised::lists;
use crate::attachment::{slot_after, SlotOp};
use crate::color_representation::capabilities::{
    ColorRepresentationCapabilities, RepresentationSets,
};
use crate::color_representation::surface_state::ColorRepresentationSurfaceData;
use crate::protocol::{AlphaMode, Coefficients, Range};

verus! {

/// The version of `wp_color_representation_manager_v1` that is advertised.
pub const COLOR_REPRESENTATION_VERSION: u32 = 1;

/// Protocol errors of `wp_color_representation_manager_v1`.
#[derive(Debug, Clone, Copy, PartialEq, Eq, Structural)]
pub enum ManagerError {
    /// `get_surface` for a surface that has the interface already.
    SurfaceExists,
}

impl ManagerError {
    /// The error code on the wire.
    pub open spec fn spec_code(self) -> u32 {
        match self {
            ManagerError::SurfaceExists => 1,
        }
    }

    /// The message posted with the error.
    pub open spec fn spec_message(self) -> Seq<char> {
        match self {
            ManagerError::SurfaceExists =>
                "wl_surface already has wp_color_representation_surface_v1"@,
        }
    }

    /// The error code on the wire.
    pub fn code(self) -> (code: u32)
        ensures
            code == self.spec_code(),
    {
        match self {
            ManagerError::SurfaceExists => 1,
        }
    }

    /// The message posted with the error.
    pub fn message(self) -> (message: &'static str)
        ensures
            message@ == self.spec_message(),
    {
        match self {
            ManagerError::SurfaceExists =>
                "wl_surface already has wp_color_representation_surface_v1",
        }
    }
}

/// Data of a `wp_color_representation_surface_v1`.
#[derive(Debug)]
pub struct SurfaceResourceData<S> {
    /// The `wl_surface` this color-representation interface is paired with.
    pub surface: S,
}

/// Compositor-wide state for the color-representation protocol.
///
/// `G` is the registered global, as the Wayland server library hands it out.
#[derive(Debug)]
pub struct ColorRepresentationState<G> {
    global: G,
    capabilities: ColorRepresentationCapabilities,
}

impl<G> ColorRepresentationState<G> {
    /// The registered global.
    pub closed spec fn registered_global(self) -> G {
        self.global
    }

    /// What is advertised.
    pub closed spec fn advertised(self) -> RepresentationSets {
        self.capabilities@
    }

    /// State for a compositor that registered `global` and advertises `capabilities`.
    pub fn new(global: G, capabilities: ColorRepresentationCapabilities) -> (state: Self)
        ensures
            state.registered_global() == global,
            state.advertised() == capabilities@,
    {
        ColorRepresentationState { global, capabilities }
    }

    /// The registered global.
    pub fn global(&self) -> (global: &G)
        ensures
            *global == self.registered_global(),
    {
        &self.global
    }

    /// The advertised capabilities.
    pub fn capabilities(&self) -> (capabilities: &ColorRepresentationCapabilities)
        ensures
            capabilities@ == self.advertised(),
    {
        &self.capabilities
    }
}

/// What a compositor implements to give access to its color-representation state.
pub trait ColorRepresentationHandler<G> {
    /// The color-representation state that the compositor holds.
    fn color_representation_state(&mut self) -> &mut ColorRepresentationState<G>;
}

/// An event that `wp_color_representation_manager_v1` sends when it is bound.
#[derive(Debug, Clone, Copy, PartialEq, Eq, Structural)]
pub enum BindEvent {
    /// `supported_alpha_mode`.
    SupportedAlphaMode(AlphaMode),
    /// `supported_coefficients_and_ranges`.
    SupportedCoefficientsAndRanges(Coefficients, Range),
    /// `done`.
    Done,
}

/// The events for the given lists: alpha modes, pairs, `done`.
pub open spec fn bind_sequence(
    alpha_modes: Seq<AlphaMode>,
    pairs: Seq<(Coefficients, Range)>,
) -> Seq<BindEvent> {
    alpha_modes.map_values(|v: AlphaMode| BindEvent::SupportedAlphaMode(v))
        + pairs.map_values(
        |v: (Coefficients, Range)| BindEvent::SupportedCoefficientsAndRanges(v.0, v.1),
    ) + seq![BindEvent::Done]
}

/// Whether `events` announces what is advertised: each member of each set once, then
/// `done`.
pub open spec fn announces(events: Seq<BindEvent>, caps: RepresentationSets) -> bool {
    exists|alpha_modes: Seq<AlphaMode>, pairs: Seq<(Coefficients, Range)>|
        {
            &&& lists(alpha_modes, caps.alpha_modes)
            &&& lists(pairs, caps.coefficient_range_pairs)
            &&& events == #[trigger] bind_sequence(alpha_modes, pairs)
        }
}

/// The events that announce the capabilities to a client that binds the manager.
pub fn bind_events(caps: &ColorRepresentationCapabilities) -> (events: Vec<BindEvent>)
    ensures
        announces(events@, caps@),
{
    let alpha_modes = caps.alpha_modes();
    let pairs = caps.coefficient_range_pairs();
    let ghost part1 = alpha_modes@.map_values(|v: AlphaMode| BindEvent::SupportedAlphaMode(v));
    let ghost part2 = pairs@.map_values(
        |v: (Coefficients, Range)| BindEvent::SupportedCoefficientsAndRanges(v.0, v.1),
    );
    let mut events: Vec<BindEvent> = Vec::new();
    for i in 0..alpha_modes.len()
        invariant
            part1 == alpha_modes@.map_values(|v: AlphaMode| BindEvent::SupportedAlphaMode(v)),
            events@ =~= part1.take(i as int),
    {
        events.push(BindEvent::SupportedAlphaMode(alpha_modes[i]));
    }
    for i in 0..pairs.len()
        invariant
            part2 == pairs@.map_values(
                |v: (Coefficients, Range)| BindEvent::SupportedCoefficientsAndRanges(v.0, v.1),
            ),
            events@ =~= part1 + part2.take(i as int),
    {
        let (coefficients, range) = pairs[i];
        events.push(BindEvent::SupportedCoefficientsAndRanges(coefficients, range));
    }
    events.push(BindEvent::Done);
    assert(events@ =~= bind_sequence(alpha_modes@, pairs@));
    events
}

/// The error that `get_surface` raises on a surface on which the interface is attached or
/// not.
pub open spec fn get_surface_error(attached: bool) -> Option<ManagerError> {
    if attached {
        Some(ManagerError::SurfaceExists)
    } else {
        None
    }
}

/// Handles `get_surface`: data for the new interface, unless the surface has one already.
pub fn get_surface<S>(data: &mut ColorRepresentationSurfaceData, surface: S) -> (result: Result<
    SurfaceResourceData<S>,
    ManagerError,
>)
    ensures
        final(data)@ == slot_after(SlotOp::Attach),
        result == (match get_surface_error(old(data)@) {
            Some(error) => Err(error),
            None => Ok(SurfaceResourceData { surface }),
        }),
{
    if data.is_resource_attached_or_attach() {
        return Err(ManagerError::SurfaceExists);
    }
    Ok(SurfaceResourceData { surface })
}

/// The announcement is complete and exact: a value is announced once if it is advertised,
/// and not at all otherwise, and `done` comes last.
pub proof fn lemma_bind_announces_exactly(events: Seq<BindEvent>, caps: RepresentationSets)
    requires
        announces(events, caps),
    ensures
        events.len() > 0 && events.last() == BindEvent::Done,
        events.no_duplicates(),
        forall|v: AlphaMode|
            events.contains(BindEvent::SupportedAlphaMode(v))
                <==> #[trigger] caps.alpha_modes.contains(v),
        forall|c: Coefficients, r: Range|
            events.contains(BindEvent::SupportedCoefficientsAndRanges(c, r))
                <==> #[trigger] caps.coefficient_range_pairs.contains((c, r)),
{
    let (modes, pairs) = choose|modes: Seq<AlphaMode>, pairs: Seq<(Coefficients, Range)>|
        {
            &&& lists(modes, caps.alpha_modes)
            &&& lists(pairs, caps.coefficient_range_pairs)
            &&& events == #[trigger] bind_sequence(modes, pairs)
        };
    let n1 = modes.len() as int;
    let n2 = n1 + pairs.len();
    assert(events.len() == n2 + 1);
    assert forall|i: int| 0 <= i < n1 implies #[trigger] events[i] == BindEvent::SupportedAlphaMode(
        modes[i],
    ) by {}
    assert forall|i: int| n1 <= i < n2 implies #[trigger] events[i]
        == BindEvent::SupportedCoefficientsAndRanges(pairs[i - n1].0, pairs[i - n1].1) by {}
    assert(events[n2] == BindEvent::Done);
    assert forall|v: AlphaMode|
        events.contains(BindEvent::SupportedAlphaMode(v)) <==> #[trigger] caps.alpha_modes.contains(
            v,
        ) by {
        assert(modes.to_set().contains(v) <==> modes.contains(v));
        if modes.contains(v) {
            let i = modes.index_of(v);
            assert(events[i] == BindEvent::SupportedAlphaMode(v));
        }
    }
    assert forall|c: Coefficients, r: Range|
        events.contains(BindEvent::SupportedCoefficientsAndRanges(c, r))
            <==> #[trigger] caps.coefficient_range_pairs.contains((c, r)) by {
        assert(pairs.to_set().contains((c, r)) <==> pairs.contains((c, r)));
        if pairs.contains((c, r)) {
            let i = pairs.index_of((c, r));
            assert(events[n1 + i] == BindEvent::SupportedCoefficientsAndRanges(c, r));
        }
    }
}

/// The place of an event in the announcement.
pub open spec fn bind_rank(event: BindEvent) -> int {
    match event {
        BindEvent::SupportedAlphaMode(_) => 0,
        BindEvent::SupportedCoefficientsAndRanges(_, _) => 1,
        BindEvent::Done => 2,
    }
}

/// The announcement goes by alpha modes, then pairs of coefficients and range, then `done`.
pub proof fn lemma_bind_is_in_order(
    events: Seq<BindEvent>,
    caps: RepresentationSets,
    i: int,
    j: int,
)
    requires
        announces(events, caps),
        0 <= i <= j < events.len(),
    ensures
        bind_rank(events[i]) <= bind_rank(events[j]),
{
}

/// `get_surface` is refused on a surface that has the interface, and on no other.
pub proof fn lemma_get_surface_errors(attached: bool)
    ensures
        attached ==> get_surface_error(attached) == Some(ManagerError::SurfaceExists),
        !attached ==> get_surface_error(attached) is None,
{
}

} // verus!
