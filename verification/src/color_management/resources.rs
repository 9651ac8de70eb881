//! The data of each protocol object.
//!
//! An object of the compositor enters as a handle of some type `O` or `S`, which the library
//! only stores.
use std::sync::Arc;

use vstd::prelude::*;

use crate::color_management::description::ImageDescription;

verus! {

/// Data of a `wp_color_management_output_v1`.
#[derive(Debug)]
pub struct OutputResourceData<O> {
    /// The `wl_output` this color-management interface is paired with.
    pub output: O,
}

/// Data of a `wp_color_management_surface_v1`.
#[derive(Debug)]
pub struct SurfaceResourceData<S> {
    /// The `wl_surface` this color-management interface is paired with.
    pub surface: S,
}

/// Data of a `wp_color_management_surface_feedback_v1`.
#[derive(Debug)]
pub struct SurfaceFeedbackResourceData<S> {
    /// The `wl_surface` this feedback interface is paired with.
    pub surface: S,
    last_sent_identity: u64,
}

impl<S> SurfaceFeedbackResourceData<S> {
    /// The surface the interface is paired with.
    pub closed spec fn paired_surface(self) -> S {
        self.surface
    }

    /// The identity last told to the client; 0 if none was.
    pub closed spec fn last_sent(self) -> u64 {
        self.last_sent_identity
    }

    /// Data for a new interface: no identity has been sent yet.
    pub fn new(surface: S) -> (data: Self)
        ensures
            data.paired_surface() == surface,
            data.last_sent() == 0,
    {
        SurfaceFeedbackResourceData { surface, last_sent_identity: 0 }
    }

    /// Reads the last-sent identity (0 means that none was sent yet).
    pub fn last_sent_identity(&self) -> (identity: u64)
        ensures
            identity == self.last_sent(),
    {
        self.last_sent_identity
    }

    /// Updates the last-sent identity.
    pub fn set_last_sent_identity(&mut self, identity: u64)
        ensures
            final(self).last_sent() == identity,
            final(self).paired_surface() == old(self).paired_surface(),
    {
        self.last_sent_identity = identity;
    }
}

/// State of a `wp_image_description_v1`.
#[derive(Debug)]
enum DescriptionResourceState {
    /// The description is ready.
    Ready(Arc<ImageDescription>),
    /// The description failed; the object does nothing.
    Inert,
}

/// What a `wp_image_description_v1` stands for: the view of [`DescriptionResourceData`].
pub struct DescriptionStatus {
    /// The description, or `None` if the object is inert.
    pub description: Option<Arc<ImageDescription>>,
    /// Whether `get_information` may be asked of the object.
    pub allow_get_information: bool,
}

impl DescriptionStatus {
    /// An object that failed.
    pub open spec fn inert() -> Self {
        DescriptionStatus { description: None, allow_get_information: false }
    }
}

/// Data of a `wp_image_description_v1`.
#[derive(Debug)]
pub struct DescriptionResourceData {
    state: DescriptionResourceState,
    /// Whether the request that created the object permits `get_information`.
    ///
    /// It is `true` for a description that `get_preferred` or `get_preferred_parametric`
    /// recommends, and as the reference says for one taken from a reference. It is `false`
    /// for what the client made itself, for `create_windows_scrgb`, and for the
    /// `get_image_description` of an output. On the last, `color-management-v1.xml` reads
    /// otherwise: it lets the client ask. The rule given here is the one that is followed,
    /// because compositors and clients are built against this documentation.
    pub allow_get_information: bool,
}

impl View for DescriptionResourceData {
    type V = DescriptionStatus;

    closed spec fn view(&self) -> DescriptionStatus {
        DescriptionStatus {
            description: match self.state {
                DescriptionResourceState::Ready(description) => Some(description),
                DescriptionResourceState::Inert => None,
            },
            allow_get_information: self.allow_get_information,
        }
    }
}

impl DescriptionResourceData {
    /// Data of an object whose description is ready.
    pub fn ready(description: Arc<ImageDescription>, allow_get_information: bool) -> (data: Self)
        ensures
            data@ == (DescriptionStatus {
                description: Some(description),
                allow_get_information,
            }),
    {
        DescriptionResourceData {
            state: DescriptionResourceState::Ready(description),
            allow_get_information,
        }
    }

    /// Data of an object that failed.
    pub fn inert() -> (data: Self)
        ensures
            data@ == DescriptionStatus::inert(),
    {
        DescriptionResourceData {
            state: DescriptionResourceState::Inert,
            allow_get_information: false,
        }
    }

    /// The description, or `None` if the object is inert.
    pub fn description(&self) -> (description: Option<Arc<ImageDescription>>)
        ensures
            description == self@.description,
    {
        match &self.state {
            DescriptionResourceState::Ready(description) => Some(Arc::clone(description)),
            DescriptionResourceState::Inert => None,
        }
    }

    /// Answers `get_information`: the description to inform about, or the protocol error.
    ///
    /// An object whose origin forbids the request raises `no_information`, whether or not
    /// its description is ready.
    pub fn get_information(&self) -> (result: Result<Arc<ImageDescription>, DescriptionError>)
        ensures
            result == information_answer(self@),
    {
        if !self.allow_get_information {
            return Err(DescriptionError::InformationNotAllowed);
        }
        match self.description() {
            Some(description) => Ok(description),
            None => Err(DescriptionError::NotReady),
        }
    }
}

/// The answer to `get_information` on an object with the given status.
pub open spec fn information_answer(status: DescriptionStatus) -> Result<
    Arc<ImageDescription>,
    DescriptionError,
> {
    if !status.allow_get_information {
        Err(DescriptionError::InformationNotAllowed)
    } else {
        match status.description {
            Some(description) => Ok(description),
            None => Err(DescriptionError::NotReady),
        }
    }
}

/// Data of a `wp_image_description_reference_v1`.
#[derive(Debug)]
pub struct ReferenceResourceData {
    /// The description this reference points at.
    pub description: Arc<ImageDescription>,
    /// Whether descriptions taken from this reference permit `get_information`.
    pub allow_get_information: bool,
}

/// Protocol errors of `wp_image_description_v1`.
#[derive(Debug, Clone, Copy, PartialEq, Eq, Structural)]
pub enum DescriptionError {
    /// `get_information` on an object whose origin forbids it.
    InformationNotAllowed,
    /// `get_information` on an object that is not ready.
    NotReady,
}

impl DescriptionError {
    /// The error code on the wire.
    pub open spec fn spec_code(self) -> u32 {
        match self {
            DescriptionError::NotReady => 0,
            DescriptionError::InformationNotAllowed => 1,
        }
    }

    /// The message posted with the error.
    pub open spec fn spec_message(self) -> Seq<char> {
        match self {
            DescriptionError::InformationNotAllowed =>
                "get_information not allowed for this description"@,
            DescriptionError::NotReady => "description not ready"@,
        }
    }

    /// The error code on the wire.
    pub fn code(self) -> (code: u32)
        ensures
            code == self.spec_code(),
    {
        match self {
            DescriptionError::NotReady => 0,
            DescriptionError::InformationNotAllowed => 1,
        }
    }

    /// The message posted with the error.
    pub fn message(self) -> (message: &'static str)
        ensures
            message@ == self.spec_message(),
    {
        match self {
            DescriptionError::InformationNotAllowed =>
                "get_information not allowed for this description",
            DescriptionError::NotReady => "description not ready",
        }
    }
}

/// `get_information` gives the object's own description exactly if the object permits the
/// request and is ready. An object that forbids it raises `no_information` in any case, and
/// one that permits it but is not ready raises `not_ready`.
pub proof fn lemma_information_answer(status: DescriptionStatus)
    ensures
        status.allow_get_information ==> (match status.description {
            Some(description) => information_answer(status) == Ok::<_, DescriptionError>(
                description,
            ),
            None => information_answer(status) == Err::<Arc<ImageDescription>, _>(
                DescriptionError::NotReady,
            ),
        }),
        !status.allow_get_information ==> information_answer(status) == Err::<
            Arc<ImageDescription>,
            _,
        >(DescriptionError::InformationNotAllowed),
{
}

/// An object that failed has no description and permits nothing.
pub proof fn lemma_inert_status()
    ensures
        DescriptionStatus::inert().description is None,
        !DescriptionStatus::inert().allow_get_information,
{
}

} // verus!
