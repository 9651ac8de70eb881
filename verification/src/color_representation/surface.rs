//! The requests of `wp_color_representation_surface_v1`.
//!
//! Each takes the pending state of the surface, and `None` where the surface is gone. The
//! values are checked in either case.
use vstd::prelude::*;

use crate::attachment::{slot_after, SlotOp};
use crate::color_representation::capabilities::{
    ColorRepresentationCapabilities, RepresentationSets,
};
use crate::color_representation::state::{get_surface_error, ManagerError};
use crate::color_representation::surface_state::{
    ColorRepresentationSurfaceCachedState, ColorRepresentationSurfaceData,
};
use crate::protocol::{
    decode_alpha_mode, decode_chroma_location, decode_coefficients, decode_range, AlphaMode,
    ChromaLocation, Coefficients, Range,
};

verus! {

/// Protocol errors of `wp_color_representation_surface_v1`.
#[derive(Debug, Clone, Copy, PartialEq, Eq, Structural)]
pub enum SurfaceError {
    /// An alpha mode the protocol does not know.
    UnknownAlphaMode,
    /// An alpha mode the compositor does not advertise.
    AlphaModeNotAdvertised,
    /// Coefficients the protocol does not know.
    UnknownCoefficients,
    /// A range the protocol does not know.
    UnknownRange,
    /// A pair of coefficients and range the compositor does not advertise.
    PairNotAdvertised,
    /// A chroma location the protocol does not know.
    UnknownChromaLocation,
}

impl SurfaceError {
    /// The error code on the wire.
    pub open spec fn spec_code(self) -> u32 {
        match self {
            SurfaceError::UnknownAlphaMode => 1,
            SurfaceError::AlphaModeNotAdvertised => 1,
            SurfaceError::UnknownCoefficients => 2,
            SurfaceError::UnknownRange => 2,
            SurfaceError::PairNotAdvertised => 2,
            SurfaceError::UnknownChromaLocation => 5,
        }
    }

    /// The message posted with the error.
    pub open spec fn spec_message(self) -> Seq<char> {
        match self {
            SurfaceError::UnknownAlphaMode => "unknown alpha_mode enum value"@,
            SurfaceError::AlphaModeNotAdvertised => "alpha_mode not advertised by compositor"@,
            SurfaceError::UnknownCoefficients => "unknown coefficients enum value"@,
            SurfaceError::UnknownRange => "unknown range enum value"@,
            SurfaceError::PairNotAdvertised =>
                "(coefficients, range) pair not advertised by compositor"@,
            SurfaceError::UnknownChromaLocation => "unknown chroma_location enum value"@,
        }
    }

    /// The error code on the wire.
    pub fn code(self) -> (code: u32)
        ensures
            code == self.spec_code(),
    {
        match self {
            SurfaceError::UnknownAlphaMode => 1,
            SurfaceError::AlphaModeNotAdvertised => 1,
            SurfaceError::UnknownCoefficients => 2,
            SurfaceError::UnknownRange => 2,
            SurfaceError::PairNotAdvertised => 2,
            SurfaceError::UnknownChromaLocation => 5,
        }
    }

    /// The message posted with the error.
    pub fn message(self) -> (message: &'static str)
        ensures
            message@ == self.spec_message(),
    {
        match self {
            SurfaceError::UnknownAlphaMode => "unknown alpha_mode enum value",
            SurfaceError::AlphaModeNotAdvertised => "alpha_mode not advertised by compositor",
            SurfaceError::UnknownCoefficients => "unknown coefficients enum value",
            SurfaceError::UnknownRange => "unknown range enum value",
            SurfaceError::PairNotAdvertised =>
                "(coefficients, range) pair not advertised by compositor",
            SurfaceError::UnknownChromaLocation => "unknown chroma_location enum value",
        }
    }
}

/// A request of `wp_color_representation_surface_v1`, with its values as they came in.
#[derive(Debug, Clone, Copy, PartialEq, Eq, Structural)]
pub enum SurfaceRequest {
    /// `set_alpha_mode`.
    SetAlphaMode { alpha_mode: u32 },
    /// `set_coefficients_and_range`.
    SetCoefficientsAndRange { coefficients: u32, range: u32 },
    /// `set_chroma_location`.
    SetChromaLocation { chroma_location: u32 },
}

impl SurfaceRequest {
    /// The error that the request raises, if any.
    pub open spec fn error(self, caps: RepresentationSets) -> Option<SurfaceError> {
        match self {
            SurfaceRequest::SetAlphaMode { alpha_mode } => match AlphaMode::from_wire(alpha_mode) {
                None => Some(SurfaceError::UnknownAlphaMode),
                Some(mode) => if caps.alpha_modes.contains(mode) {
                    None
                } else {
                    Some(SurfaceError::AlphaModeNotAdvertised)
                },
            },
            SurfaceRequest::SetCoefficientsAndRange { coefficients, range } => match (
                Coefficients::from_wire(coefficients),
                Range::from_wire(range),
            ) {
                (None, _) => Some(SurfaceError::UnknownCoefficients),
                (Some(_), None) => Some(SurfaceError::UnknownRange),
                (Some(coefficients), Some(range)) => if caps.coefficient_range_pairs.contains(
                    (coefficients, range),
                ) {
                    None
                } else {
                    Some(SurfaceError::PairNotAdvertised)
                },
            },
            SurfaceRequest::SetChromaLocation { chroma_location } => {
                if ChromaLocation::from_wire(chroma_location) is Some {
                    None
                } else {
                    Some(SurfaceError::UnknownChromaLocation)
                }
            },
        }
    }

    /// The pending state after the request, where it raises no error.
    pub open spec fn apply(
        self,
        pending: ColorRepresentationSurfaceCachedState,
    ) -> ColorRepresentationSurfaceCachedState {
        match self {
            SurfaceRequest::SetAlphaMode { alpha_mode } => ColorRepresentationSurfaceCachedState {
                alpha_mode: AlphaMode::from_wire(alpha_mode),
                ..pending
            },
            SurfaceRequest::SetCoefficientsAndRange { coefficients, range } => {
                ColorRepresentationSurfaceCachedState {
                    coefficients: Coefficients::from_wire(coefficients),
                    range: Range::from_wire(range),
                    ..pending
                }
            },
            SurfaceRequest::SetChromaLocation { chroma_location } => {
                ColorRepresentationSurfaceCachedState {
                    chroma_location: ChromaLocation::from_wire(chroma_location),
                    ..pending
                }
            },
        }
    }
}

/// Handles `set_alpha_mode`.
pub fn set_alpha_mode(
    pending: Option<&mut ColorRepresentationSurfaceCachedState>,
    caps: &ColorRepresentationCapabilities,
    alpha_mode: u32,
) -> (result: Result<(), SurfaceError>)
    ensures
        ({
            let request = SurfaceRequest::SetAlphaMode { alpha_mode };
            &&& result == (match request.error(caps@) {
                Some(error) => Err(error),
                None => Ok(()),
            })
            &&& pending matches Some(pending) ==> *final(pending) == (if result is Ok {
                request.apply(*pending)
            } else {
                *pending
            })
        }),
{
    let mode = match decode_alpha_mode(alpha_mode) {
        Some(mode) => mode,
        None => return Err(SurfaceError::UnknownAlphaMode),
    };
    if !caps.supports_alpha_mode(mode) {
        return Err(SurfaceError::AlphaModeNotAdvertised);
    }
    if let Some(pending) = pending {
        pending.alpha_mode = Some(mode);
    }
    Ok(())
}

/// Handles `set_coefficients_and_range`.
pub fn set_coefficients_and_range(
    pending: Option<&mut ColorRepresentationSurfaceCachedState>,
    caps: &ColorRepresentationCapabilities,
    coefficients: u32,
    range: u32,
) -> (result: Result<(), SurfaceError>)
    ensures
        ({
            let request = SurfaceRequest::SetCoefficientsAndRange { coefficients, range };
            &&& result == (match request.error(caps@) {
                Some(error) => Err(error),
                None => Ok(()),
            })
            &&& pending matches Some(pending) ==> *final(pending) == (if result is Ok {
                request.apply(*pending)
            } else {
                *pending
            })
        }),
{
    let coefficients = match decode_coefficients(coefficients) {
        Some(coefficients) => coefficients,
        None => return Err(SurfaceError::UnknownCoefficients),
    };
    let range = match decode_range(range) {
        Some(range) => range,
        None => return Err(SurfaceError::UnknownRange),
    };
    if !caps.supports_coefficients_and_range(coefficients, range) {
        return Err(SurfaceError::PairNotAdvertised);
    }
    if let Some(pending) = pending {
        pending.coefficients = Some(coefficients);
        pending.range = Some(range);
    }
    Ok(())
}

/// Handles `set_chroma_location`. Any location that the protocol knows is accepted.
pub fn set_chroma_location(
    pending: Option<&mut ColorRepresentationSurfaceCachedState>,
    chroma_location: u32,
) -> (result: Result<(), SurfaceError>)
    ensures
        ({
            let request = SurfaceRequest::SetChromaLocation { chroma_location };
            &&& forall|caps: RepresentationSets|
                result == (match #[trigger] request.error(caps) {
                    Some(error) => Err(error),
                    None => Ok(()),
                })
            &&& pending matches Some(pending) ==> *final(pending) == (if result is Ok {
                request.apply(*pending)
            } else {
                *pending
            })
        }),
{
    let location = match decode_chroma_location(chroma_location) {
        Some(location) => location,
        None => return Err(SurfaceError::UnknownChromaLocation),
    };
    if let Some(pending) = pending {
        pending.chroma_location = Some(location);
    }
    Ok(())
}

/// Handles a request.
pub fn surface_request(
    pending: Option<&mut ColorRepresentationSurfaceCachedState>,
    caps: &ColorRepresentationCapabilities,
    request: SurfaceRequest,
) -> (result: Result<(), SurfaceError>)
    ensures
        result == (match request.error(caps@) {
            Some(error) => Err(error),
            None => Ok(()),
        }),
        pending matches Some(pending) ==> *final(pending) == (if result is Ok {
            request.apply(*pending)
        } else {
            *pending
        }),
{
    match request {
        SurfaceRequest::SetAlphaMode { alpha_mode } => set_alpha_mode(pending, caps, alpha_mode),
        SurfaceRequest::SetCoefficientsAndRange { coefficients, range } => {
            set_coefficients_and_range(pending, caps, coefficients, range)
        },
        SurfaceRequest::SetChromaLocation { chroma_location } => {
            set_chroma_location(pending, chroma_location)
        },
    }
}

/// Handles `destroy`: frees the surface for another interface, and clears all that the
/// client has set.
pub fn destroy_surface(
    pending: Option<&mut ColorRepresentationSurfaceCachedState>,
    data: Option<&mut ColorRepresentationSurfaceData>,
)
    ensures
        pending matches Some(pending) ==> *final(pending)
            == ColorRepresentationSurfaceCachedState::unset(),
        data matches Some(data) ==> final(data)@ == slot_after(SlotOp::Detach),
{
    surface_destroyed(data);
    if let Some(pending) = pending {
        pending.alpha_mode = None;
        pending.coefficients = None;
        pending.range = None;
        pending.chroma_location = None;
    }
}

/// Frees the surface for another interface, when an interface is gone without `destroy`.
pub fn surface_destroyed(data: Option<&mut ColorRepresentationSurfaceData>)
    ensures
        data matches Some(data) ==> final(data)@ == slot_after(SlotOp::Detach),
{
    if let Some(data) = data {
        data.detach();
    }
}

/// Hands the state that a surface has committed to `callback`.
pub fn with_surface_color_representation<F, R>(
    current: &ColorRepresentationSurfaceCachedState,
    callback: F,
) -> (result: R) where F: FnOnce(&ColorRepresentationSurfaceCachedState) -> R
    requires
        callback.requires((current,)),
    ensures
        callback.ensures((current,), result),
{
    callback(current)
}

/// The pending state after a series of requests that were all accepted.
pub open spec fn apply_all(
    pending: ColorRepresentationSurfaceCachedState,
    requests: Seq<SurfaceRequest>,
) -> ColorRepresentationSurfaceCachedState
    decreases requests.len(),
{
    if requests.len() == 0 {
        pending
    } else {
        requests.last().apply(apply_all(pending, requests.drop_last()))
    }
}

/// Whether a pending state holds only what `caps` advertises, and a coefficient where and
/// only where it holds a range.
pub open spec fn respects(
    pending: ColorRepresentationSurfaceCachedState,
    caps: RepresentationSets,
) -> bool {
    &&& pending.alpha_mode matches Some(mode) ==> caps.alpha_modes.contains(mode)
    &&& match (pending.coefficients, pending.range) {
        (Some(coefficients), Some(range)) => caps.coefficient_range_pairs.contains(
            (coefficients, range),
        ),
        (None, None) => true,
        _ => false,
    }
}

/// Whatever accepted requests a client makes, its state holds only what is advertised, and
/// coefficients and range come in pairs.
pub proof fn lemma_state_respects_capabilities(
    caps: RepresentationSets,
    requests: Seq<SurfaceRequest>,
)
    requires
        forall|i: int| 0 <= i < requests.len() ==> (#[trigger] requests[i]).error(caps) is None,
    ensures
        respects(apply_all(ColorRepresentationSurfaceCachedState::unset(), requests), caps),
    decreases requests.len(),
{
    if requests.len() > 0 {
        let rest = requests.drop_last();
        assert forall|i: int| 0 <= i < rest.len() implies (#[trigger] rest[i]).error(
            caps,
        ) is None by {
            assert(rest[i] == requests[i]);
        }
        lemma_state_respects_capabilities(caps, rest);
        assert(requests[requests.len() - 1].error(caps) is None);
    }
}

/// Each request touches its own properties: requests of different kinds can be exchanged.
pub proof fn lemma_requests_are_independent(
    pending: ColorRepresentationSurfaceCachedState,
    alpha_mode: u32,
    coefficients: u32,
    range: u32,
    chroma_location: u32,
)
    ensures
        ({
            let a = SurfaceRequest::SetAlphaMode { alpha_mode };
            let c = SurfaceRequest::SetCoefficientsAndRange { coefficients, range };
            let l = SurfaceRequest::SetChromaLocation { chroma_location };
            &&& a.apply(c.apply(pending)) == c.apply(a.apply(pending))
            &&& a.apply(l.apply(pending)) == l.apply(a.apply(pending))
            &&& c.apply(l.apply(pending)) == l.apply(c.apply(pending))
        }),
{
}

/// Success is owed for every advertised value, and it is the value that the state then
/// holds.
pub proof fn lemma_advertised_values_are_accepted(
    caps: RepresentationSets,
    pending: ColorRepresentationSurfaceCachedState,
    mode: AlphaMode,
    coefficients: Coefficients,
    range: Range,
    location: ChromaLocation,
)
    requires
        caps.alpha_modes.contains(mode),
        caps.coefficient_range_pairs.contains((coefficients, range)),
    ensures
        ({
            let a = SurfaceRequest::SetAlphaMode { alpha_mode: mode.wire() };
            let c = SurfaceRequest::SetCoefficientsAndRange {
                coefficients: coefficients.wire(),
                range: range.wire(),
            };
            let l = SurfaceRequest::SetChromaLocation { chroma_location: location.wire() };
            &&& a.error(caps) is None && a.apply(pending).alpha_mode == Some(mode)
            &&& c.error(caps) is None && c.apply(pending).coefficients == Some(coefficients)
                && c.apply(pending).range == Some(range)
            &&& l.error(caps) is None && l.apply(pending).chroma_location == Some(location)
        }),
{
}

/// What is kept of a surface: whether the interface is attached to it, and its pending state.
pub struct SurfaceRecord {
    /// Whether the interface is attached.
    pub attached: bool,
    /// The pending state.
    pub pending: ColorRepresentationSurfaceCachedState,
}

/// What a client can ask of a surface that exists.
pub enum SurfaceOp {
    /// `get_surface` of the manager.
    GetSurface,
    /// A request that sets a property.
    SetProperty(SurfaceRequest),
    /// `destroy` of the interface.
    Destroy,
}

impl SurfaceRecord {
    /// A surface of which nothing was asked.
    pub open spec fn unused() -> Self {
        SurfaceRecord { attached: false, pending: ColorRepresentationSurfaceCachedState::unset() }
    }

    /// The surface after a request.
    pub open spec fn after(self, caps: RepresentationSets, op: SurfaceOp) -> Self {
        match op {
            SurfaceOp::GetSurface => SurfaceRecord {
                attached: slot_after(SlotOp::Attach),
                ..self
            },
            SurfaceOp::SetProperty(request) => if request.error(caps) is None {
                SurfaceRecord { pending: request.apply(self.pending), ..self }
            } else {
                self
            },
            SurfaceOp::Destroy => SurfaceRecord {
                attached: slot_after(SlotOp::Detach),
                pending: ColorRepresentationSurfaceCachedState::unset(),
            },
        }
    }

    /// The surface after a series of requests.
    pub open spec fn after_all(self, caps: RepresentationSets, ops: Seq<SurfaceOp>) -> Self
        decreases ops.len(),
    {
        if ops.len() == 0 {
            self
        } else {
            self.after_all(caps, ops.drop_last()).after(caps, ops.last())
        }
    }
}

/// After `destroy` the surface is as new, whatever came before, so that `get_surface`
/// succeeds.
pub proof fn lemma_destroy_reverts_surface(
    record: SurfaceRecord,
    caps: RepresentationSets,
    ops: Seq<SurfaceOp>,
)
    ensures
        record.after_all(caps, ops.push(SurfaceOp::Destroy)) == SurfaceRecord::unused(),
        get_surface_error(
            record.after_all(caps, ops.push(SurfaceOp::Destroy)).attached,
        ) is None,
{
    assert(ops.push(SurfaceOp::Destroy).drop_last() =~= ops);
}

/// Once `get_surface` has been asked, it is refused until `destroy`, whatever comes in
/// between, and the refused request changes nothing.
pub proof fn lemma_get_surface_is_exclusive(
    record: SurfaceRecord,
    caps: RepresentationSets,
    ops: Seq<SurfaceOp>,
)
    requires
        forall|i: int| 0 <= i < ops.len() ==> !((#[trigger] ops[i]) is Destroy),
    ensures
        ({
            let later = record.after(caps, SurfaceOp::GetSurface).after_all(caps, ops);
            &&& get_surface_error(later.attached) == Some(ManagerError::SurfaceExists)
            &&& later.after(caps, SurfaceOp::GetSurface) == later
        }),
    decreases ops.len(),
{
    if ops.len() > 0 {
        let rest = ops.drop_last();
        assert forall|i: int| 0 <= i < rest.len() implies !((#[trigger] rest[i]) is Destroy) by {
            assert(rest[i] == ops[i]);
        }
        lemma_get_surface_is_exclusive(record, caps, rest);
        assert(!(ops[ops.len() - 1] is Destroy));
    }
}

/// Whether the interface is attached before request `i` of a history.
#[verifier::opaque]
pub open spec fn attached_before(caps: RepresentationSets, ops: Seq<SurfaceOp>, i: int) -> bool {
    SurfaceRecord::unused().after_all(caps, ops.take(i)).attached
}

/// Whether request `i` of a history is a `get_surface` that succeeds.
pub open spec fn gets_surface(caps: RepresentationSets, ops: Seq<SurfaceOp>, i: int) -> bool {
    ops[i] is GetSurface && get_surface_error(attached_before(caps, ops, i)) is None
}

/// Whether a `get_surface` before request `i` succeeded and `destroy` has not followed it.
pub open spec fn holds_surface(caps: RepresentationSets, ops: Seq<SurfaceOp>, i: int) -> bool {
    exists|j: int|
        {
            &&& 0 <= j < i
            &&& #[trigger] gets_surface(caps, ops, j)
            &&& forall|k: int| j < k < i ==> !((#[trigger] ops[k]) is Destroy)
        }
}

/// In any history of a surface, `get_surface` is refused exactly if an earlier one succeeded
/// and `destroy` has not followed it.
pub proof fn lemma_get_surface_is_refused_while_attached(
    caps: RepresentationSets,
    ops: Seq<SurfaceOp>,
    i: int,
)
    requires
        0 <= i <= ops.len(),
    ensures
        get_surface_error(attached_before(caps, ops, i)) is Some <==> holds_surface(caps, ops, i),
    decreases i,
{
    if i == 0 {
        reveal(attached_before);
    } else {
        lemma_get_surface_is_refused_while_attached(caps, ops, i - 1);
        lemma_attached_step(caps, ops, i - 1);
        if holds_surface(caps, ops, i - 1) && !(ops[i - 1] is Destroy) {
            let j = choose|j: int|
                {
                    &&& 0 <= j < i - 1
                    &&& #[trigger] gets_surface(caps, ops, j)
                    &&& forall|k: int| j < k < i - 1 ==> !((#[trigger] ops[k]) is Destroy)
                };
            assert(gets_surface(caps, ops, j));
        } else if ops[i - 1] is GetSurface {
            assert(gets_surface(caps, ops, i - 1));
        }
        if holds_surface(caps, ops, i) {
            let j = choose|j: int|
                {
                    &&& 0 <= j < i
                    &&& #[trigger] gets_surface(caps, ops, j)
                    &&& forall|k: int| j < k < i ==> !((#[trigger] ops[k]) is Destroy)
                };
            if j < i - 1 {
                assert(gets_surface(caps, ops, j));
                assert(!(ops[i - 1] is Destroy));
            }
        }
    }
}

/// What request `i` does to the attachment.
proof fn lemma_attached_step(caps: RepresentationSets, ops: Seq<SurfaceOp>, i: int)
    requires
        0 <= i < ops.len(),
    ensures
        attached_before(caps, ops, i + 1) == (match ops[i] {
            SurfaceOp::GetSurface => true,
            SurfaceOp::Destroy => false,
            _ => attached_before(caps, ops, i),
        }),
{
    reveal(attached_before);
    assert(ops.take(i + 1).drop_last() =~= ops.take(i));
    assert(ops.take(i + 1).last() == ops[i]);
}

/// `set_alpha_mode` sets every advertised mode, the one with the number that was sent, and
/// nothing else. It fails on an unknown mode, else on one that is not advertised.
pub proof fn lemma_set_alpha_mode(
    caps: RepresentationSets,
    pending: ColorRepresentationSurfaceCachedState,
    mode: AlphaMode,
    raw: u32,
)
    ensures
        ({
            let request = SurfaceRequest::SetAlphaMode { alpha_mode: mode.wire() };
            &&& caps.alpha_modes.contains(mode) ==> request.error(caps) is None
            &&& !caps.alpha_modes.contains(mode) ==> request.error(caps) == Some(
                SurfaceError::AlphaModeNotAdvertised,
            )
            &&& request.apply(pending) == (ColorRepresentationSurfaceCachedState {
                alpha_mode: Some(mode),
                ..pending
            })
        }),
        (forall|known: AlphaMode| #[trigger] known.wire() != raw)
            ==> (SurfaceRequest::SetAlphaMode { alpha_mode: raw }).error(caps) == Some(
            SurfaceError::UnknownAlphaMode,
        ),
{
    if let Some(known) = AlphaMode::from_wire(raw) {
        assert(known.wire() == raw);
    }
}

/// `set_coefficients_and_range` sets every advertised pair, the one with the numbers that
/// were sent, and nothing else. It fails on unknown coefficients, else on an unknown range,
/// else on a pair that is not advertised.
pub proof fn lemma_set_coefficients_and_range(
    caps: RepresentationSets,
    pending: ColorRepresentationSurfaceCachedState,
    coefficients: Coefficients,
    range: Range,
    raw_coefficients: u32,
    raw_range: u32,
)
    ensures
        ({
            let request = SurfaceRequest::SetCoefficientsAndRange {
                coefficients: coefficients.wire(),
                range: range.wire(),
            };
            let advertised = caps.coefficient_range_pairs.contains((coefficients, range));
            &&& advertised ==> request.error(caps) is None
            &&& !advertised ==> request.error(caps) == Some(SurfaceError::PairNotAdvertised)
            &&& request.apply(pending) == (ColorRepresentationSurfaceCachedState {
                coefficients: Some(coefficients),
                range: Some(range),
                ..pending
            })
        }),
        (forall|known: Coefficients| #[trigger] known.wire() != raw_coefficients) ==> (
        SurfaceRequest::SetCoefficientsAndRange {
            coefficients: raw_coefficients,
            range: raw_range,
        }).error(caps) == Some(SurfaceError::UnknownCoefficients),
        (forall|known: Range| #[trigger] known.wire() != raw_range) ==> (
        SurfaceRequest::SetCoefficientsAndRange {
            coefficients: coefficients.wire(),
            range: raw_range,
        }).error(caps) == Some(SurfaceError::UnknownRange),
{
    if let Some(known) = Coefficients::from_wire(raw_coefficients) {
        assert(known.wire() == raw_coefficients);
    }
    if let Some(known) = Range::from_wire(raw_range) {
        assert(known.wire() == raw_range);
    }
}

/// `set_chroma_location` sets every location that the protocol knows, the one with the number
/// that was sent, and nothing else. It fails on an unknown location only.
pub proof fn lemma_set_chroma_location(
    caps: RepresentationSets,
    pending: ColorRepresentationSurfaceCachedState,
    location: ChromaLocation,
    raw: u32,
)
    ensures
        ({
            let request = SurfaceRequest::SetChromaLocation { chroma_location: location.wire() };
            &&& request.error(caps) is None
            &&& request.apply(pending) == (ColorRepresentationSurfaceCachedState {
                chroma_location: Some(location),
                ..pending
            })
        }),
        (forall|known: ChromaLocation| #[trigger] known.wire() != raw)
            ==> (SurfaceRequest::SetChromaLocation { chroma_location: raw }).error(caps) == Some(
            SurfaceError::UnknownChromaLocation,
        ),
{
    if let Some(known) = ChromaLocation::from_wire(raw) {
        assert(known.wire() == raw);
    }
}

} // verus!
