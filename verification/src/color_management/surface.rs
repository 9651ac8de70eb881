//! The requests of `wp_color_management_surface_v1`.
//!
//! Each takes the pending state of the surface, and `None` where the surface is gone.
use std::sync::Arc;

use vstd::prelude::*;

use crate::attachment::{slot_after, SlotOp};
use crate::color_management::capabilities::{CapabilitySets, ColorManagementCapabilities};
use crate::color_management::description::ImageDescription;
use crate::color_management::replies::{DescriptionFailure, DescriptionReply};
use crate::color_management::resources::{DescriptionResourceData, DescriptionStatus};
use crate::color_management::state::{get_surface_error, ManagerError};
use crate::color_management::surface_state::{
    ColorManagementSurfaceCachedState, ColorManagementSurfaceData,
};
use crate::protocol::{decode_render_intent, RenderIntent};

verus! {

/// Protocol errors of `wp_color_management_surface_v1`.
#[derive(Debug, Clone, Copy, PartialEq, Eq, Structural)]
pub enum SurfaceError {
    /// A render intent the protocol does not know.
    UnknownIntent,
    /// A render intent the compositor does not advertise.
    IntentNotAdvertised,
    /// An image description object without data.
    MissingDescription,
    /// An image description that failed.
    InertDescription,
}

impl SurfaceError {
    /// The error code on the wire.
    pub open spec fn spec_code(self) -> u32 {
        match self {
            SurfaceError::UnknownIntent => 0,
            SurfaceError::IntentNotAdvertised => 0,
            SurfaceError::MissingDescription => 1,
            SurfaceError::InertDescription => 1,
        }
    }

    /// The message posted with the error.
    pub open spec fn spec_message(self) -> Seq<char> {
        match self {
            SurfaceError::UnknownIntent => "unknown render intent"@,
            SurfaceError::IntentNotAdvertised => "render intent not advertised by compositor"@,
            SurfaceError::MissingDescription => "missing description user-data"@,
            SurfaceError::InertDescription => "image description is inert"@,
        }
    }

    /// The error code on the wire.
    pub fn code(self) -> (code: u32)
        ensures
            code == self.spec_code(),
    {
        match self {
            SurfaceError::UnknownIntent => 0,
            SurfaceError::IntentNotAdvertised => 0,
            SurfaceError::MissingDescription => 1,
            SurfaceError::InertDescription => 1,
        }
    }

    /// The message posted with the error.
    pub fn message(self) -> (message: &'static str)
        ensures
            message@ == self.spec_message(),
    {
        match self {
            SurfaceError::UnknownIntent => "unknown render intent",
            SurfaceError::IntentNotAdvertised => "render intent not advertised by compositor",
            SurfaceError::MissingDescription => "missing description user-data",
            SurfaceError::InertDescription => "image description is inert",
        }
    }
}

/// The state that `set_image_description` asks for, or the error that it raises, on a
/// surface that exists. `description` is `None` for an object without data.
pub open spec fn requested_state(
    caps: CapabilitySets,
    raw_intent: u32,
    description: Option<DescriptionStatus>,
) -> Result<ColorManagementSurfaceCachedState, SurfaceError> {
    match RenderIntent::from_wire(raw_intent) {
        None => Err(SurfaceError::UnknownIntent),
        Some(intent) => if !caps.intents.contains(intent) {
            Err(SurfaceError::IntentNotAdvertised)
        } else {
            match description {
                None => Err(SurfaceError::MissingDescription),
                Some(status) => match status.description {
                    None => Err(SurfaceError::InertDescription),
                    Some(description) => Ok(
                        ColorManagementSurfaceCachedState {
                            description: Some(description),
                            render_intent: intent,
                        },
                    ),
                },
            }
        },
    }
}

/// Handles `set_image_description`: writes the description and the intent to the pending
/// state.
///
/// If the surface is gone, nothing is checked and nothing happens.
pub fn set_image_description(
    pending: Option<&mut ColorManagementSurfaceCachedState>,
    caps: &ColorManagementCapabilities,
    raw_intent: u32,
    description: Option<&DescriptionResourceData>,
) -> (result: Result<(), SurfaceError>)
    ensures
        ({
            let status = match description {
                Some(data) => Some(data@),
                None => None,
            };
            match pending {
                Some(pending) => match requested_state(caps@, raw_intent, status) {
                    Ok(state) => result is Ok && *final(pending) == state,
                    Err(error) => result == Err::<(), SurfaceError>(error) && *final(pending)
                        == *pending,
                },
                None => result is Ok,
            }
        }),
{
    let pending = match pending {
        Some(pending) => pending,
        None => return Ok(()),
    };
    let intent = match decode_render_intent(raw_intent) {
        Some(intent) => intent,
        None => return Err(SurfaceError::UnknownIntent),
    };
    if !caps.supports_intent(intent) {
        return Err(SurfaceError::IntentNotAdvertised);
    }
    let data = match description {
        Some(data) => data,
        None => return Err(SurfaceError::MissingDescription),
    };
    let description = match data.description() {
        Some(description) => description,
        None => return Err(SurfaceError::InertDescription),
    };
    pending.description = Some(description);
    pending.render_intent = intent;
    Ok(())
}

/// Handles `unset_image_description`: the pending state has no description.
pub fn unset_image_description(pending: Option<&mut ColorManagementSurfaceCachedState>)
    ensures
        pending matches Some(pending) ==> *final(pending)
            == ColorManagementSurfaceCachedState::unset(),
{
    if let Some(pending) = pending {
        pending.description = None;
        pending.render_intent = RenderIntent::Perceptual;
    }
}

/// Handles `destroy`: frees the surface for another interface, and unsets the description.
pub fn destroy_surface(
    pending: Option<&mut ColorManagementSurfaceCachedState>,
    data: Option<&mut ColorManagementSurfaceData>,
)
    ensures
        pending matches Some(pending) ==> *final(pending)
            == ColorManagementSurfaceCachedState::unset(),
        data matches Some(data) ==> final(data)@ == slot_after(SlotOp::Detach),
{
    surface_destroyed(data);
    unset_image_description(pending);
}

/// Frees the surface for another interface, when an interface is gone without `destroy`.
pub fn surface_destroyed(data: Option<&mut ColorManagementSurfaceData>)
    ensures
        data matches Some(data) ==> final(data)@ == slot_after(SlotOp::Detach),
{
    if let Some(data) = data {
        data.detach();
    }
}

/// Hands the description and the intent that a surface has committed to `callback`.
///
/// The description is `None` if the client has never set one, or has unset it.
pub fn with_surface_image_description<F, R>(
    current: &ColorManagementSurfaceCachedState,
    callback: F,
) -> (result: R) where F: FnOnce(Option<&Arc<ImageDescription>>, RenderIntent) -> R
    requires
        callback.requires((current.description_ref(), current.render_intent)),
    ensures
        callback.ensures((current.description_ref(), current.render_intent), result),
{
    let description = match &current.description {
        Some(description) => Some(description),
        None => None,
    };
    callback(description, current.render_intent)
}

impl ColorManagementSurfaceCachedState {
    /// The description, borrowed.
    pub open spec fn description_ref(&self) -> Option<&Arc<ImageDescription>> {
        match &self.description {
            Some(description) => Some(description),
            None => None,
        }
    }
}

/// What `set_image_description` accepts is ready and uses an advertised intent.
pub proof fn lemma_accepted_state_is_honest(
    caps: CapabilitySets,
    raw_intent: u32,
    description: Option<DescriptionStatus>,
)
    ensures
        requested_state(caps, raw_intent, description) matches Ok(state) ==> {
            &&& caps.intents.contains(state.render_intent)
            &&& state.render_intent.wire() == raw_intent
            &&& state.description is Some
            &&& description matches Some(status)
            &&& status.description == state.description
        },
{
}

/// A description that is ready can be put on a surface, and one that failed cannot,
/// whichever request made it.
pub proof fn lemma_reply_decides_about_surface(
    caps: CapabilitySets,
    intent: RenderIntent,
    reply: DescriptionReply,
    description: Arc<ImageDescription>,
    allow_get_information: bool,
    failure: DescriptionFailure,
)
    requires
        caps.intents.contains(intent),
    ensures
        reply.carries(description, allow_get_information) ==> requested_state(
            caps,
            intent.wire(),
            Some(reply.data@),
        ) == Ok::<_, SurfaceError>(
            ColorManagementSurfaceCachedState {
                description: Some(description),
                render_intent: intent,
            },
        ),
        reply.is_failed(failure) ==> requested_state(caps, intent.wire(), Some(reply.data@))
            == Err::<ColorManagementSurfaceCachedState, _>(SurfaceError::InertDescription),
{
}

/// What is kept of a surface: whether the interface is attached to it, and its pending state.
pub struct SurfaceRecord {
    /// Whether the interface is attached.
    pub attached: bool,
    /// The pending state.
    pub pending: ColorManagementSurfaceCachedState,
}

/// What a client can ask of a surface that exists.
pub enum SurfaceOp {
    /// `get_surface` of the manager.
    GetSurface,
    /// `set_image_description`, with the number of the intent and the description's data.
    SetDescription(u32, Option<DescriptionStatus>),
    /// `unset_image_description`.
    Unset,
    /// `destroy` of the interface.
    Destroy,
}

impl SurfaceRecord {
    /// A surface of which nothing was asked.
    pub open spec fn unused() -> Self {
        SurfaceRecord { attached: false, pending: ColorManagementSurfaceCachedState::unset() }
    }

    /// The surface after a request.
    pub open spec fn after(self, caps: CapabilitySets, op: SurfaceOp) -> Self {
        match op {
            SurfaceOp::GetSurface => SurfaceRecord {
                attached: slot_after(SlotOp::Attach),
                ..self
            },
            SurfaceOp::SetDescription(raw_intent, description) => match requested_state(
                caps,
                raw_intent,
                description,
            ) {
                Ok(state) => SurfaceRecord { pending: state, ..self },
                Err(_) => self,
            },
            SurfaceOp::Unset => SurfaceRecord {
                pending: ColorManagementSurfaceCachedState::unset(),
                ..self
            },
            SurfaceOp::Destroy => SurfaceRecord {
                attached: slot_after(SlotOp::Detach),
                pending: ColorManagementSurfaceCachedState::unset(),
            },
        }
    }

    /// The surface after a series of requests.
    pub open spec fn after_all(self, caps: CapabilitySets, ops: Seq<SurfaceOp>) -> Self
        decreases ops.len(),
    {
        if ops.len() == 0 {
            self
        } else {
            self.after_all(caps, ops.drop_last()).after(caps, ops.last())
        }
    }
}

/// After `destroy` the surface is as new, whatever came before, so that `get_surface`
/// succeeds.
pub proof fn lemma_destroy_reverts_surface(
    record: SurfaceRecord,
    caps: CapabilitySets,
    ops: Seq<SurfaceOp>,
)
    ensures
        record.after_all(caps, ops.push(SurfaceOp::Destroy)) == SurfaceRecord::unused(),
        get_surface_error(
            record.after_all(caps, ops.push(SurfaceOp::Destroy)).attached,
        ) is None,
{
    assert(ops.push(SurfaceOp::Destroy).drop_last() =~= ops);
}

/// Once `get_surface` has been asked, it is refused until `destroy`, whatever comes in
/// between, and the refused request changes nothing.
pub proof fn lemma_get_surface_is_exclusive(
    record: SurfaceRecord,
    caps: CapabilitySets,
    ops: Seq<SurfaceOp>,
)
    requires
        forall|i: int| 0 <= i < ops.len() ==> !((#[trigger] ops[i]) is Destroy),
    ensures
        ({
            let later = record.after(caps, SurfaceOp::GetSurface).after_all(caps, ops);
            &&& get_surface_error(later.attached) == Some(ManagerError::SurfaceExists)
            &&& later.after(caps, SurfaceOp::GetSurface) == later
        }),
    decreases ops.len(),
{
    if ops.len() > 0 {
        let rest = ops.drop_last();
        assert forall|i: int| 0 <= i < rest.len() implies !((#[trigger] rest[i]) is Destroy) by {
            assert(rest[i] == ops[i]);
        }
        lemma_get_surface_is_exclusive(record, caps, rest);
        assert(!(ops[ops.len() - 1] is Destroy));
    }
}

/// Whether the interface is attached before request `i` of a history.
#[verifier::opaque]
pub open spec fn attached_before(caps: CapabilitySets, ops: Seq<SurfaceOp>, i: int) -> bool {
    SurfaceRecord::unused().after_all(caps, ops.take(i)).attached
}

/// Whether request `i` of a history is a `get_surface` that succeeds.
pub open spec fn gets_surface(caps: CapabilitySets, ops: Seq<SurfaceOp>, i: int) -> bool {
    ops[i] is GetSurface && get_surface_error(attached_before(caps, ops, i)) is None
}

/// Whether a `get_surface` before request `i` succeeded and `destroy` has not followed it.
pub open spec fn holds_surface(caps: CapabilitySets, ops: Seq<SurfaceOp>, i: int) -> bool {
    exists|j: int|
        {
            &&& 0 <= j < i
            &&& #[trigger] gets_surface(caps, ops, j)
            &&& forall|k: int| j < k < i ==> !((#[trigger] ops[k]) is Destroy)
        }
}

/// In any history of a surface, `get_surface` is refused exactly if an earlier one succeeded
/// and `destroy` has not followed it.
pub proof fn lemma_get_surface_is_refused_while_attached(
    caps: CapabilitySets,
    ops: Seq<SurfaceOp>,
    i: int,
)
    requires
        0 <= i <= ops.len(),
    ensures
        get_surface_error(attached_before(caps, ops, i)) is Some <==> holds_surface(caps, ops, i),
    decreases i,
{
    if i == 0 {
        reveal(attached_before);
    } else {
        lemma_get_surface_is_refused_while_attached(caps, ops, i - 1);
        lemma_attached_step(caps, ops, i - 1);
        if holds_surface(caps, ops, i - 1) && !(ops[i - 1] is Destroy) {
            let j = choose|j: int|
                {
                    &&& 0 <= j < i - 1
                    &&& #[trigger] gets_surface(caps, ops, j)
                    &&& forall|k: int| j < k < i - 1 ==> !((#[trigger] ops[k]) is Destroy)
                };
            assert(gets_surface(caps, ops, j));
        } else if ops[i - 1] is GetSurface {
            assert(gets_surface(caps, ops, i - 1));
        }
        if holds_surface(caps, ops, i) {
            let j = choose|j: int|
                {
                    &&& 0 <= j < i
                    &&& #[trigger] gets_surface(caps, ops, j)
                    &&& forall|k: int| j < k < i ==> !((#[trigger] ops[k]) is Destroy)
                };
            if j < i - 1 {
                assert(gets_surface(caps, ops, j));
                assert(!(ops[i - 1] is Destroy));
            }
        }
    }
}

/// What request `i` does to the attachment.
proof fn lemma_attached_step(caps: CapabilitySets, ops: Seq<SurfaceOp>, i: int)
    requires
        0 <= i < ops.len(),
    ensures
        attached_before(caps, ops, i + 1) == (match ops[i] {
            SurfaceOp::GetSurface => true,
            SurfaceOp::Destroy => false,
            _ => attached_before(caps, ops, i),
        }),
{
    reveal(attached_before);
    assert(ops.take(i + 1).drop_last() =~= ops.take(i));
    assert(ops.take(i + 1).last() == ops[i]);
}

/// `set_image_description` puts the very description and the intent with the number that was
/// sent on the surface, for every advertised intent and every object that is ready. It fails
/// on an unknown intent, else on one that is not advertised, else on an object without data,
/// else on an object that is inert, and in no other case.
pub proof fn lemma_set_image_description(
    caps: CapabilitySets,
    intent: RenderIntent,
    raw_intent: u32,
    description: Option<DescriptionStatus>,
)
    ensures
        (forall|known: RenderIntent| #[trigger] known.wire() != raw_intent) ==> requested_state(
            caps,
            raw_intent,
            description,
        ) == Err::<ColorManagementSurfaceCachedState, _>(SurfaceError::UnknownIntent),
        !caps.intents.contains(intent) ==> requested_state(caps, intent.wire(), description)
            == Err::<ColorManagementSurfaceCachedState, _>(SurfaceError::IntentNotAdvertised),
        caps.intents.contains(intent) ==> (match description {
            None => requested_state(caps, intent.wire(), description) == Err::<
                ColorManagementSurfaceCachedState,
                _,
            >(SurfaceError::MissingDescription),
            Some(status) => match status.description {
                None => requested_state(caps, intent.wire(), description) == Err::<
                    ColorManagementSurfaceCachedState,
                    _,
                >(SurfaceError::InertDescription),
                Some(ready) => requested_state(caps, intent.wire(), description) matches Ok(state)
                    && state.description == Some(ready) && state.render_intent == intent,
            },
        }),
{
    if let Some(known) = RenderIntent::from_wire(raw_intent) {
        assert(known.wire() == raw_intent);
    }
}

/// What is read of a surface is its own description.
pub proof fn lemma_read_description_is_own(state: ColorManagementSurfaceCachedState)
    ensures
        state.description_ref() is Some <==> state.description is Some,
        state.description matches Some(description) ==> state.description_ref() == Some(
            &description,
        ),
{
}

} // verus!
