//! What follows the creation of a `wp_image_description_v1`, and the events that carry an
//! identity.
use std::sync::Arc;

use vstd::prelude::*;

use crate::color_management::description::{
    identity_hi, identity_in, identity_lo, interned, lemma_identities_are_monotonic,
    lemma_identity_halves, split_identity, valid_registry, DescriptionContent, ImageDescription,
    ImageDescriptionInterner,
};
use crate::color_management::resources::{
    information_answer, DescriptionError, DescriptionResourceData, DescriptionStatus,
};

verus! {

/// Why an image description failed, as the protocol classifies it.
#[derive(Debug, Clone, Copy, PartialEq, Eq, Structural)]
pub enum Cause {
    /// Interface version too low.
    LowVersion,
    /// Unsupported image description data.
    Unsupported,
    /// Error independent of the client.
    OperatingSystem,
    /// The relevant output no longer exists.
    NoOutput,
}

impl Cause {
    /// The wire value of the cause.
    pub open spec fn wire(self) -> u32 {
        match self {
            Cause::LowVersion => 0,
            Cause::Unsupported => 1,
            Cause::OperatingSystem => 2,
            Cause::NoOutput => 3,
        }
    }

    /// The wire value of the cause.
    pub fn to_wire(self) -> (wire: u32)
        ensures
            wire == self.wire(),
    {
        match self {
            Cause::LowVersion => 0,
            Cause::Unsupported => 1,
            Cause::OperatingSystem => 2,
            Cause::NoOutput => 3,
        }
    }
}

/// The failures of image descriptions that the compositor reports.
#[derive(Debug, Clone, Copy, PartialEq, Eq, Structural)]
pub enum DescriptionFailure {
    /// `get_image_description` with a reference that carries no data.
    MissingReference,
    /// `get_image_description` on the interface of an output that is gone.
    OutputDestroyed,
    /// `get_preferred` on the interface of a surface that is gone.
    SurfaceDestroyed,
    /// `get_preferred_parametric` where the preferred description is not parametric.
    NoParametricForm,
}

impl DescriptionFailure {
    /// The cause reported for the failure.
    pub open spec fn spec_cause(self) -> Cause {
        match self {
            DescriptionFailure::MissingReference => Cause::OperatingSystem,
            DescriptionFailure::OutputDestroyed => Cause::NoOutput,
            DescriptionFailure::SurfaceDestroyed => Cause::OperatingSystem,
            DescriptionFailure::NoParametricForm => Cause::Unsupported,
        }
    }

    /// The message sent with the failure.
    pub open spec fn spec_message(self) -> Seq<char> {
        match self {
            DescriptionFailure::MissingReference => "missing reference data"@,
            DescriptionFailure::OutputDestroyed => "wl_output destroyed"@,
            DescriptionFailure::SurfaceDestroyed => "wl_surface destroyed"@,
            DescriptionFailure::NoParametricForm => "preferred description has no parametric form"@,
        }
    }

    /// The cause reported for the failure.
    pub fn cause(self) -> (cause: Cause)
        ensures
            cause == self.spec_cause(),
    {
        match self {
            DescriptionFailure::MissingReference => Cause::OperatingSystem,
            DescriptionFailure::OutputDestroyed => Cause::NoOutput,
            DescriptionFailure::SurfaceDestroyed => Cause::OperatingSystem,
            DescriptionFailure::NoParametricForm => Cause::Unsupported,
        }
    }

    /// The message sent with the failure.
    pub fn message(self) -> (message: &'static str)
        ensures
            message@ == self.spec_message(),
    {
        match self {
            DescriptionFailure::MissingReference => "missing reference data",
            DescriptionFailure::OutputDestroyed => "wl_output destroyed",
            DescriptionFailure::SurfaceDestroyed => "wl_surface destroyed",
            DescriptionFailure::NoParametricForm => "preferred description has no parametric form",
        }
    }
}

/// What to do with a `wp_image_description_v1` once it exists.
#[derive(Debug, Clone, Copy, PartialEq, Eq, Structural)]
pub enum DescriptionOutcome {
    /// Send `ready` or `ready2` with this identity.
    Ready(u64),
    /// Send `failed` once the current request has been dispatched.
    Failed(DescriptionFailure),
}

/// The answer to a request that creates a `wp_image_description_v1`: the data of the new
/// object, and what to do with the object.
#[derive(Debug)]
pub struct DescriptionReply {
    /// Data to create the object with.
    pub data: DescriptionResourceData,
    /// What follows the creation.
    pub outcome: DescriptionOutcome,
    /// Whether the request interned a description that had not been held before.
    pub fresh: bool,
}

impl DescriptionReply {
    /// The object gets `description`, and the client is told its identity.
    pub open spec fn carries(
        self,
        description: Arc<ImageDescription>,
        allow_get_information: bool,
    ) -> bool {
        &&& self.data@ == (DescriptionStatus {
            description: Some(description),
            allow_get_information,
        })
        &&& self.outcome == DescriptionOutcome::Ready(description.identity)
    }

    /// The object gets `description`, which existed before.
    pub open spec fn is_ready(
        self,
        description: Arc<ImageDescription>,
        allow_get_information: bool,
    ) -> bool {
        &&& self.carries(description, allow_get_information)
        &&& !self.fresh
    }

    /// The object gets the description that `registry` holds once `content` has been
    /// interned.
    pub open spec fn is_interned(
        self,
        registry: Seq<DescriptionContent>,
        content: DescriptionContent,
        allow_get_information: bool,
    ) -> bool {
        &&& self.data@.description matches Some(description)
        &&& description@ == content
        &&& description.identity == identity_in(interned(registry, content), content)
        &&& self.carries(description, allow_get_information)
        &&& self.fresh == !registry.contains(content)
    }

    /// The object is inert, and the client is told of `failure`.
    pub open spec fn is_failed(self, failure: DescriptionFailure) -> bool {
        &&& self.data@ == DescriptionStatus::inert()
        &&& self.outcome == DescriptionOutcome::Failed(failure)
        &&& !self.fresh
    }

    /// The reply for a description that existed before.
    pub fn ready(description: Arc<ImageDescription>, allow_get_information: bool) -> (reply: Self)
        ensures
            reply.is_ready(description, allow_get_information),
    {
        let identity: u64 = description.identity;
        DescriptionReply {
            data: DescriptionResourceData::ready(description, allow_get_information),
            outcome: DescriptionOutcome::Ready(identity),
            fresh: false,
        }
    }

    /// Interns a description that a client made, and replies with it. The description was
    /// fresh if that made the registry longer.
    ///
    /// The client made the description itself, so it may not ask for information about it.
    pub fn intern(
        interner: &mut ImageDescriptionInterner,
        description: ImageDescription,
    ) -> (reply: Self)
        ensures
            valid_registry(final(interner)@),
            final(interner)@ == interned(old(interner)@, description@),
            reply.is_interned(old(interner)@, description@, false),
    {
        let before: usize = interner.len();
        let handle = interner.intern(description);
        let fresh = interner.len() != before;
        DescriptionReply { fresh, ..DescriptionReply::ready(handle, false) }
    }

    /// The reply for a description that failed.
    pub fn failed(failure: DescriptionFailure) -> (reply: Self)
        ensures
            reply.is_failed(failure),
    {
        DescriptionReply {
            data: DescriptionResourceData::inert(),
            outcome: DescriptionOutcome::Failed(failure),
            fresh: false,
        }
    }
}

/// The event that tells a client the identity of a finished description.
#[derive(Debug, Clone, Copy, PartialEq, Eq, Structural)]
pub enum ReadyEvent {
    /// `ready2`: the identity in two halves.
    Ready2 { hi: u32, lo: u32 },
    /// `ready`: the lower half of the identity.
    Ready { lo: u32 },
}

impl ReadyEvent {
    /// The event for `identity` on an object of the given version.
    pub open spec fn for_identity(version: u32, identity: u64) -> Self {
        if version >= 2 {
            ReadyEvent::Ready2 {
                hi: identity_hi(identity) as u32,
                lo: identity_lo(identity) as u32,
            }
        } else {
            ReadyEvent::Ready { lo: identity_lo(identity) as u32 }
        }
    }

    /// Picks `ready2` from version 2 on, and `ready` before.
    pub fn new(version: u32, identity: u64) -> (event: Self)
        ensures
            event == Self::for_identity(version, identity),
    {
        let (hi, lo) = split_identity(identity);
        if version >= 2 {
            ReadyEvent::Ready2 { hi, lo }
        } else {
            ReadyEvent::Ready { lo }
        }
    }
}

/// The event that tells a client that the preferred description of a surface changed.
#[derive(Debug, Clone, Copy, PartialEq, Eq, Structural)]
pub enum PreferredEvent {
    /// `preferred_changed2`: the identity in two halves.
    Changed2 { hi: u32, lo: u32 },
    /// `preferred_changed`: the lower half of the identity.
    Changed { lo: u32 },
}

impl PreferredEvent {
    /// The event for `identity` on an object of the given version.
    pub open spec fn for_identity(version: u32, identity: u64) -> Self {
        if version >= 2 {
            PreferredEvent::Changed2 {
                hi: identity_hi(identity) as u32,
                lo: identity_lo(identity) as u32,
            }
        } else {
            PreferredEvent::Changed { lo: identity_lo(identity) as u32 }
        }
    }

    /// Picks `preferred_changed2` from version 2 on, and `preferred_changed` before.
    pub fn new(version: u32, identity: u64) -> (event: Self)
        ensures
            event == Self::for_identity(version, identity),
    {
        let (hi, lo) = split_identity(identity);
        if version >= 2 {
            PreferredEvent::Changed2 { hi, lo }
        } else {
            PreferredEvent::Changed { lo }
        }
    }
}

/// From version 2 on, the events of two descriptions are equal only if their identities
/// are.
pub proof fn lemma_ready_event_is_faithful(version: u32, a: u64, b: u64)
    requires
        version >= 2,
        ReadyEvent::for_identity(version, a) == ReadyEvent::for_identity(version, b),
    ensures
        a == b,
{
    lemma_identity_halves(a);
    lemma_identity_halves(b);
}

/// Before version 2 the identity is cut to its lower half, which loses nothing below 2³².
pub proof fn lemma_short_events_lose_nothing(version: u32, identity: u64)
    requires
        version < 2,
        identity <= u32::MAX,
    ensures
        ReadyEvent::for_identity(version, identity) == (ReadyEvent::Ready { lo: identity as u32 }),
        PreferredEvent::for_identity(version, identity) == (PreferredEvent::Changed {
            lo: identity as u32,
        }),
{
}

/// From version 2 on, the change events for two descriptions are equal only if their
/// identities are.
pub proof fn lemma_preferred_event_is_faithful(version: u32, a: u64, b: u64)
    requires
        version >= 2,
        PreferredEvent::for_identity(version, a) == PreferredEvent::for_identity(version, b),
    ensures
        a == b,
{
    lemma_identity_halves(a);
    lemma_identity_halves(b);
}

/// What a client may ask about a description follows from the reply that gave it: a ready
/// description answers `get_information` exactly if its origin permits that, and a failed
/// one never does.
pub proof fn lemma_information_rights(
    reply: DescriptionReply,
    description: Arc<ImageDescription>,
    failure: DescriptionFailure,
)
    ensures
        reply.carries(description, true) ==> information_answer(reply.data@) == Ok::<
            _,
            DescriptionError,
        >(description),
        reply.carries(description, false) ==> information_answer(reply.data@) == Err::<
            Arc<ImageDescription>,
            _,
        >(DescriptionError::InformationNotAllowed),
        reply.is_failed(failure) ==> information_answer(reply.data@) == Err::<
            Arc<ImageDescription>,
            _,
        >(DescriptionError::InformationNotAllowed),
{
}

/// The events carry the whole identity from version 2 on, in two halves, and its lower half
/// before.
pub proof fn lemma_events_carry_identity(version: u32, identity: u64)
    ensures
        match ReadyEvent::for_identity(version, identity) {
            ReadyEvent::Ready2 { hi, lo } => version >= 2 && hi * 0x1_0000_0000 + lo == identity,
            ReadyEvent::Ready { lo } => version < 2 && lo == identity % 0x1_0000_0000,
        },
        match PreferredEvent::for_identity(version, identity) {
            PreferredEvent::Changed2 { hi, lo } => version >= 2 && hi * 0x1_0000_0000 + lo
                == identity,
            PreferredEvent::Changed { lo } => version < 2 && lo == identity % 0x1_0000_0000,
        },
{
    lemma_identity_halves(identity);
}

/// A ready reply hands over that very description with the given right, tells its identity,
/// and announces nothing.
pub proof fn lemma_ready_reply(
    reply: DescriptionReply,
    description: Arc<ImageDescription>,
    allow_get_information: bool,
)
    requires
        reply.is_ready(description, allow_get_information),
    ensures
        reply.data@.description == Some(description),
        reply.data@.allow_get_information == allow_get_information,
        reply.outcome == DescriptionOutcome::Ready(description.identity),
        !reply.fresh,
{
}

/// A failed reply hands over no description and no right, and tells the failure.
pub proof fn lemma_failed_reply(reply: DescriptionReply, failure: DescriptionFailure)
    requires
        reply.is_failed(failure),
    ensures
        reply.data@.description is None,
        !reply.data@.allow_get_information,
        reply.outcome == DescriptionOutcome::Failed(failure),
        !reply.fresh,
{
}

/// A reply with an interned description hands over one that says just that, with the given
/// right, and tells its identity: the next number and fresh if the description was not held,
/// else the position at which it was held.
pub proof fn lemma_interned_reply(
    reply: DescriptionReply,
    registry: Seq<DescriptionContent>,
    content: DescriptionContent,
    allow_get_information: bool,
)
    requires
        valid_registry(registry),
        reply.is_interned(registry, content, allow_get_information),
    ensures
        reply.data@.allow_get_information == allow_get_information,
        reply.data@.description matches Some(description) && {
            &&& description@ == content
            &&& reply.outcome == DescriptionOutcome::Ready(description.identity)
            &&& !registry.contains(content) ==> description.identity == registry.len() + 1
            &&& registry.contains(content) ==> 1 <= description.identity <= registry.len()
                && registry[description.identity - 1] == content
        },
        reply.fresh <==> !registry.contains(content),
{
    if registry.contains(content) {
        assert(registry[registry.index_of(content)] == content);
    } else {
        assert(registry.contains(registry[0]));
        lemma_identities_are_monotonic(registry, content, registry[0]);
    }
}

/// The cause of each failure.
pub proof fn lemma_causes_of_failures(failure: DescriptionFailure)
    ensures
        failure.spec_cause() is NoOutput <==> failure is OutputDestroyed,
        failure.spec_cause() is Unsupported <==> failure is NoParametricForm,
        failure.spec_cause() is OperatingSystem <==> failure is MissingReference
            || failure is SurfaceDestroyed,
{
}

} // verus!
