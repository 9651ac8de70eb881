//! The compositor's policy: which descriptions it advertises and recommends.
use std::sync::Arc;

use vstd::prelude::*;

use crate::color_management::description::{interned, DescriptionContent, ImageDescription};
use crate::color_management::icc_creator::{IccCreatorBuilder, IccError};
use crate::color_management::params_creator::{
    ParamsCreatorBuilder, ParamsCreatorBuilderInner, ParamsError,
};
use crate::color_management::replies::{
    Cause, DescriptionFailure, DescriptionOutcome, DescriptionReply, ReadyEvent,
};
use crate::color_management::resources::{
    information_answer, DescriptionError, SurfaceFeedbackResourceData,
};
use crate::color_management::state::{
    windows_scrgb_created, ColorManagementState, ManagementView, ManagerError, ProtocolObjects,
};

verus! {

/// What a compositor implements to decide about descriptions.
///
/// All methods take `&mut self`, so that an implementation can intern descriptions that it
/// builds from its own state.
pub trait ColorManagementHandler<W: ProtocolObjects>: Sized {
    /// The color-management state that the compositor holds.
    fn color_management_state(&mut self) -> &mut ColorManagementState<W>;

    /// The description that the compositor advertises on `output`.
    ///
    /// The default is the interner's sRGB description.
    fn output_image_description(&mut self, _output: &W::Output) -> (description: Arc<
        ImageDescription,
    >)
        default_ensures
            description@ == DescriptionContent::srgb(),
            description.identity == 1,
    {
        self.color_management_state().interner().srgb_default()
    }

    /// The description that the compositor recommends for `surface`.
    ///
    /// The default is the interner's sRGB description.
    fn preferred_image_description(&mut self, _surface: &W::Surface) -> (description: Arc<
        ImageDescription,
    >)
        default_ensures
            description@ == DescriptionContent::srgb(),
            description.identity == 1,
    {
        self.color_management_state().interner().srgb_default()
    }

    /// Called once after a fresh description has been interned by a creator or by
    /// `create_windows_scrgb`, and not when the description was held before.
    ///
    /// The default does nothing.
    fn new_image_description(&mut self, _description: &Arc<ImageDescription>)
        default_ensures
            *final(self) == *old(self),
    {
    }

    /// Called when a description failed. The client is told of the failure whatever this
    /// method does.
    ///
    /// The default does nothing.
    fn image_description_failed(&mut self, _resource: &W::DescriptionResource, _cause: Cause)
        default_ensures
            *final(self) == *old(self),
    {
    }
}

/// The reply to `wp_color_management_output_v1.get_image_description`, given the description
/// advertised on the output. `None` stands for an output that is gone.
pub open spec fn answers_output(
    reply: DescriptionReply,
    description: Option<Arc<ImageDescription>>,
) -> bool {
    match description {
        Some(description) => reply.is_ready(description, false),
        None => reply.is_failed(DescriptionFailure::OutputDestroyed),
    }
}

/// Replies to `get_image_description` on an output with the description advertised on it.
///
/// The client may not ask for information about it. This follows what is documented on
/// [`DescriptionResourceData::allow_get_information`]; `color-management-v1.xml` would let
/// the client ask.
///
/// [`DescriptionResourceData::allow_get_information`]:
///     crate::color_management::resources::DescriptionResourceData::allow_get_information
pub fn output_reply(description: Option<Arc<ImageDescription>>) -> (reply: DescriptionReply)
    ensures
        answers_output(reply, description),
{
    match description {
        Some(description) => DescriptionReply::ready(description, false),
        None => DescriptionReply::failed(DescriptionFailure::OutputDestroyed),
    }
}

/// Handles `wp_color_management_output_v1.get_image_description`.
///
/// The compositor is asked what it advertises on `output`, if the output still exists, and
/// the reply carries its answer.
pub fn get_output_image_description<W: ProtocolObjects, D: ColorManagementHandler<W>>(
    state: &mut D,
    output: Option<&W::Output>,
) -> (reply: DescriptionReply)
    ensures
        match output {
            Some(output) => exists|description: Arc<ImageDescription>|
                {
                    &&& #[trigger] answers_output(reply, Some(description))
                    &&& exists|s: &mut D|
                        {
                            &&& #[trigger] call_ensures(
                                <D as ColorManagementHandler<W>>::output_image_description,
                                (s, output),
                                description,
                            )
                            &&& *s == *old(state)
                            &&& *final(s) == *final(state)
                        }
                },
            None => answers_output(reply, None) && *final(state) == *old(state),
        },
{
    match output {
        Some(output) => {
            let description = state.output_image_description(output);
            assert(exists|s: &mut D|
                {
                    &&& #[trigger] call_ensures(
                        <D as ColorManagementHandler<W>>::output_image_description,
                        (s, output),
                        description,
                    )
                    &&& *s == *old(state)
                    &&& *final(s) == *state
                });
            output_reply(Some(description))
        },
        None => output_reply(None),
    }
}

/// The reply to `get_preferred` or `get_preferred_parametric`, given the description
/// preferred for the surface. `None` stands for a surface that is gone.
pub open spec fn answers_preferred(
    reply: DescriptionReply,
    preferred: Option<Arc<ImageDescription>>,
    parametric_only: bool,
) -> bool {
    match preferred {
        Some(description) => if parametric_only && !description@.is_parametric() {
            reply.is_failed(DescriptionFailure::NoParametricForm)
        } else {
            reply.is_ready(description, true)
        },
        None => reply.is_failed(DescriptionFailure::SurfaceDestroyed),
    }
}

/// The identity last told to the client once that reply has been given.
pub open spec fn last_sent_after(
    last_sent: u64,
    preferred: Option<Arc<ImageDescription>>,
    parametric_only: bool,
) -> u64 {
    match preferred {
        Some(description) => if parametric_only && !description@.is_parametric() {
            last_sent
        } else {
            description.identity
        },
        None => last_sent,
    }
}

/// Replies to `get_preferred` or `get_preferred_parametric` with the preferred description.
///
/// The client may ask for information about it, and its identity counts as sent.
pub fn preferred_reply<S>(
    data: &mut SurfaceFeedbackResourceData<S>,
    preferred: Option<Arc<ImageDescription>>,
    parametric_only: bool,
) -> (reply: DescriptionReply)
    ensures
        answers_preferred(reply, preferred, parametric_only),
        final(data).last_sent() == last_sent_after(
            old(data).last_sent(),
            preferred,
            parametric_only,
        ),
        final(data).paired_surface() == old(data).paired_surface(),
{
    match preferred {
        Some(description) => {
            if parametric_only && !description.is_parametric() {
                return DescriptionReply::failed(DescriptionFailure::NoParametricForm);
            }
            data.set_last_sent_identity(description.identity);
            DescriptionReply::ready(description, true)
        },
        None => DescriptionReply::failed(DescriptionFailure::SurfaceDestroyed),
    }
}

/// Handles `get_preferred` and `get_preferred_parametric`.
///
/// The compositor is asked what it recommends for `surface`, if the surface still exists,
/// and the reply goes by its answer.
pub fn handle_feedback_get_preferred<W: ProtocolObjects, D: ColorManagementHandler<W>, S>(
    state: &mut D,
    data: &mut SurfaceFeedbackResourceData<S>,
    surface: Option<&W::Surface>,
    parametric_only: bool,
) -> (reply: DescriptionReply)
    ensures
        match surface {
            Some(surface) => exists|description: Arc<ImageDescription>|
                {
                    &&& #[trigger] answers_preferred(reply, Some(description), parametric_only)
                    &&& final(data).last_sent() == last_sent_after(
                        old(data).last_sent(),
                        Some(description),
                        parametric_only,
                    )
                    &&& exists|s: &mut D|
                        {
                            &&& #[trigger] call_ensures(
                                <D as ColorManagementHandler<W>>::preferred_image_description,
                                (s, surface),
                                description,
                            )
                            &&& *s == *old(state)
                            &&& *final(s) == *final(state)
                        }
                },
            None => {
                &&& answers_preferred(reply, None, parametric_only)
                &&& *final(data) == *old(data)
                &&& *final(state) == *old(state)
            },
        },
        final(data).paired_surface() == old(data).paired_surface(),
{
    match surface {
        Some(surface) => {
            let description = state.preferred_image_description(surface);
            assert(exists|s: &mut D|
                {
                    &&& #[trigger] call_ensures(
                        <D as ColorManagementHandler<W>>::preferred_image_description,
                        (s, surface),
                        description,
                    )
                    &&& *s == *old(state)
                    &&& *final(s) == *state
                });
            preferred_reply(data, Some(description), parametric_only)
        },
        None => DescriptionReply::failed(DescriptionFailure::SurfaceDestroyed),
    }
}

/// Tells the compositor of a description that has been interned, if it is fresh.
pub fn announce_description<W: ProtocolObjects, D: ColorManagementHandler<W>>(
    state: &mut D,
    description: &Arc<ImageDescription>,
    fresh: bool,
)
    ensures
        if fresh {
            exists|s: &mut D|
                {
                    &&& #[trigger] call_ensures(
                        <D as ColorManagementHandler<W>>::new_image_description,
                        (s, description),
                        (),
                    )
                    &&& *s == *old(state)
                    &&& *final(s) == *final(state)
                }
        } else {
            *final(state) == *old(state)
        },
{
    if fresh {
        state.new_image_description(description);
        assert(exists|s: &mut D|
            {
                &&& #[trigger] call_ensures(
                    <D as ColorManagementHandler<W>>::new_image_description,
                    (s, description),
                    (),
                )
                &&& *s == *old(state)
                &&& *final(s) == *state
            });
    }
}

/// Tells the compositor of a description that failed.
pub fn report_failure<W: ProtocolObjects, D: ColorManagementHandler<W>>(
    state: &mut D,
    resource: &W::DescriptionResource,
    failure: DescriptionFailure,
)
    ensures
        exists|s: &mut D|
            {
                &&& #[trigger] call_ensures(
                    <D as ColorManagementHandler<W>>::image_description_failed,
                    (s, resource, failure.spec_cause()),
                    (),
                )
                &&& *s == *old(state)
                &&& *final(s) == *final(state)
            },
{
    let cause = failure.cause();
    state.image_description_failed(resource, cause);
    assert(exists|s: &mut D|
        {
            &&& #[trigger] call_ensures(
                <D as ColorManagementHandler<W>>::image_description_failed,
                (s, resource, cause),
                (),
            )
            &&& *s == *old(state)
            &&& *final(s) == *state
        });
}

/// Handles `create` of the parametric creator.
///
/// The description is interned in the compositor's state, and the compositor is told of it
/// once if it is fresh.
pub fn create_parametric_description<W: ProtocolObjects, D: ColorManagementHandler<W>>(
    state: &mut D,
    builder: &mut ParamsCreatorBuilder,
) -> (result: Result<DescriptionReply, ParamsError>)
    ensures
        final(builder).0 == (if old(builder).0.consumed {
            old(builder).0
        } else {
            ParamsCreatorBuilderInner::blank(true)
        }),
        exists|s: &mut D, cm: &mut ColorManagementState<W>|
            {
                &&& #[trigger] call_ensures(
                    <D as ColorManagementHandler<W>>::color_management_state,
                    (s,),
                    cm,
                )
                &&& *s == *old(state)
                &&& match old(builder).0.created() {
                    Ok(content) => {
                        &&& final(cm)@ == (ManagementView::<W> {
                            registry: interned(cm@.registry, content),
                            ..cm@
                        })
                        &&& result matches Ok(reply)
                        &&& reply.is_interned(cm@.registry, content, false)
                        &&& if reply.fresh {
                            exists|t: &mut D|
                                {
                                    &&& #[trigger] call_ensures(
                                        <D as ColorManagementHandler<W>>::new_image_description,
                                        (t, &reply.data@.description->0),
                                        (),
                                    )
                                    &&& *t == *final(s)
                                    &&& *final(t) == *final(state)
                                }
                        } else {
                            *final(s) == *final(state)
                        }
                    },
                    Err(error) => {
                        &&& final(cm)@ == cm@
                        &&& result matches Err(e)
                        &&& e == error
                        &&& *final(s) == *final(state)
                    },
                }
            },
{
    let result = builder.create(state.color_management_state().interner_mut());
    let reply = match result {
        Ok(reply) => reply,
        Err(error) => return Err(error),
    };
    if let Some(description) = reply.data.description() {
        announce_description(state, &description, reply.fresh);
    }
    Ok(reply)
}

/// Handles `create` of the ICC creator.
///
/// The description is interned in the compositor's state, and the compositor is told of it
/// once if it is fresh.
pub fn create_icc_description<W: ProtocolObjects, D: ColorManagementHandler<W>>(
    state: &mut D,
    builder: &mut IccCreatorBuilder,
) -> (result: Result<DescriptionReply, IccError>)
    ensures
        final(builder).0.consumed,
        final(builder).0.profile() == (if old(builder).0.consumed {
            old(builder).0.profile()
        } else {
            None
        }),
        exists|s: &mut D, cm: &mut ColorManagementState<W>|
            {
                &&& #[trigger] call_ensures(
                    <D as ColorManagementHandler<W>>::color_management_state,
                    (s,),
                    cm,
                )
                &&& *s == *old(state)
                &&& match old(builder).0.created() {
                    Ok(content) => {
                        &&& final(cm)@ == (ManagementView::<W> {
                            registry: interned(cm@.registry, content),
                            ..cm@
                        })
                        &&& result matches Ok(reply)
                        &&& reply.is_interned(cm@.registry, content, false)
                        &&& if reply.fresh {
                            exists|t: &mut D|
                                {
                                    &&& #[trigger] call_ensures(
                                        <D as ColorManagementHandler<W>>::new_image_description,
                                        (t, &reply.data@.description->0),
                                        (),
                                    )
                                    &&& *t == *final(s)
                                    &&& *final(t) == *final(state)
                                }
                        } else {
                            *final(s) == *final(state)
                        }
                    },
                    Err(error) => {
                        &&& final(cm)@ == cm@
                        &&& result matches Err(e)
                        &&& e == error
                        &&& *final(s) == *final(state)
                    },
                }
            },
{
    let result = builder.create(state.color_management_state().interner_mut());
    let reply = match result {
        Ok(reply) => reply,
        Err(error) => return Err(error),
    };
    if let Some(description) = reply.data.description() {
        announce_description(state, &description, reply.fresh);
    }
    Ok(reply)
}

/// Handles `wp_color_manager_v1.create_windows_scrgb`.
///
/// The description is interned in the compositor's state, and the compositor is told of it
/// once if it is fresh.
pub fn create_windows_scrgb_description<W: ProtocolObjects, D: ColorManagementHandler<W>>(
    state: &mut D,
) -> (result: Result<DescriptionReply, ManagerError>)
    ensures
        exists|s: &mut D, cm: &mut ColorManagementState<W>|
            {
                &&& #[trigger] call_ensures(
                    <D as ColorManagementHandler<W>>::color_management_state,
                    (s,),
                    cm,
                )
                &&& *s == *old(state)
                &&& match windows_scrgb_created(cm@.capabilities) {
                    Ok(content) => {
                        &&& final(cm)@ == (ManagementView::<W> {
                            registry: interned(cm@.registry, content),
                            ..cm@
                        })
                        &&& result matches Ok(reply)
                        &&& reply.is_interned(cm@.registry, content, false)
                        &&& if reply.fresh {
                            exists|t: &mut D|
                                {
                                    &&& #[trigger] call_ensures(
                                        <D as ColorManagementHandler<W>>::new_image_description,
                                        (t, &reply.data@.description->0),
                                        (),
                                    )
                                    &&& *t == *final(s)
                                    &&& *final(t) == *final(state)
                                }
                        } else {
                            *final(s) == *final(state)
                        }
                    },
                    Err(error) => {
                        &&& final(cm)@ == cm@
                        &&& result matches Err(e)
                        &&& e == error
                        &&& *final(s) == *final(state)
                    },
                }
            },
{
    let result = state.color_management_state().create_windows_scrgb();
    let reply = match result {
        Ok(reply) => reply,
        Err(error) => return Err(error),
    };
    if let Some(description) = reply.data.description() {
        announce_description(state, &description, reply.fresh);
    }
    Ok(reply)
}

/// Follows up on a `wp_image_description_v1` that has just been created: returns the event to
/// send on it now, or queues its failure.
///
/// The compositor is told of a failure first; the client is told whatever the compositor
/// does.
pub fn complete_description<W: ProtocolObjects, D: ColorManagementHandler<W>>(
    state: &mut D,
    resource: W::DescriptionResource,
    version: u32,
    outcome: DescriptionOutcome,
) -> (event: Option<ReadyEvent>)
    ensures
        match outcome {
            DescriptionOutcome::Ready(identity) => {
                &&& event == Some(ReadyEvent::for_identity(version, identity))
                &&& *final(state) == *old(state)
            },
            DescriptionOutcome::Failed(failure) => {
                &&& event is None
                &&& exists|r: &mut D, s: &mut D, cm: &mut ColorManagementState<W>|
                    {
                        &&& #[trigger] call_ensures(
                            <D as ColorManagementHandler<W>>::image_description_failed,
                            (r, &resource, failure.spec_cause()),
                            (),
                        )
                        &&& *r == *old(state)
                        &&& #[trigger] call_ensures(
                            <D as ColorManagementHandler<W>>::color_management_state,
                            (s,),
                            cm,
                        )
                        &&& *s == *final(r)
                        &&& final(cm)@ == (ManagementView::<W> {
                            pending_failed: cm@.pending_failed.push(
                                (resource, failure.spec_cause(), failure.spec_message()),
                            ),
                            ..cm@
                        })
                        &&& *final(s) == *final(state)
                    }
            },
        },
{
    match outcome {
        DescriptionOutcome::Ready(identity) => Some(ReadyEvent::new(version, identity)),
        DescriptionOutcome::Failed(failure) => {
            report_failure(state, &resource, failure);
            state.color_management_state().queue_failed_description(
                resource,
                failure.cause(),
                failure.message().to_owned(),
            );
            None
        },
    }
}

/// A client that asks for the preferred description of a surface gets it and may ask for
/// information about it, whether it asked by `get_preferred` or by
/// `get_preferred_parametric`: `get_information` on the data of the reply gives that very
/// description. Only where a parametric description is asked for and the preferred one lacks
/// primaries or a transfer function does the request fail, as unsupported.
pub proof fn lemma_preferred_description_is_given(
    reply: DescriptionReply,
    preferred: Arc<ImageDescription>,
    parametric_only: bool,
)
    requires
        answers_preferred(reply, Some(preferred), parametric_only),
    ensures
        !parametric_only || (preferred.primaries is Some && preferred.transfer_function is Some)
            ==> {
            &&& reply.data@.description == Some(preferred)
            &&& reply.data@.allow_get_information
            &&& information_answer(reply.data@) == Ok::<_, DescriptionError>(preferred)
            &&& reply.outcome == DescriptionOutcome::Ready(preferred.identity)
            &&& !reply.fresh
        },
        parametric_only && (preferred.primaries is None || preferred.transfer_function is None)
            ==> {
            &&& reply.data@.description is None
            &&& !reply.data@.allow_get_information
            &&& reply.outcome == DescriptionOutcome::Failed(DescriptionFailure::NoParametricForm)
            &&& !reply.fresh
        },
{
}

/// A request for the preferred description of a surface that is gone fails as that.
pub proof fn lemma_preferred_fails_without_surface(reply: DescriptionReply, parametric_only: bool)
    requires
        answers_preferred(reply, None, parametric_only),
    ensures
        reply.data@.description is None,
        !reply.data@.allow_get_information,
        reply.outcome == DescriptionOutcome::Failed(DescriptionFailure::SurfaceDestroyed),
        !reply.fresh,
{
}

/// What counts as last sent after a request for the preferred description: its identity if
/// the client got it, and what was sent before if the request failed.
pub proof fn lemma_given_identity_counts_as_sent(
    last_sent: u64,
    preferred: Arc<ImageDescription>,
    parametric_only: bool,
)
    ensures
        !parametric_only || (preferred.primaries is Some && preferred.transfer_function is Some)
            ==> last_sent_after(last_sent, Some(preferred), parametric_only) == preferred.identity,
        parametric_only && (preferred.primaries is None || preferred.transfer_function is None)
            ==> last_sent_after(last_sent, Some(preferred), parametric_only) == last_sent,
        last_sent_after(last_sent, None, parametric_only) == last_sent,
{
}

/// A client that asks for the description of an output gets the very one that is advertised,
/// with its identity, and may not ask for information about it. For an output that is gone
/// the request fails as that.
pub proof fn lemma_output_description_is_given(
    reply: DescriptionReply,
    description: Arc<ImageDescription>,
)
    ensures
        answers_output(reply, Some(description)) ==> {
            &&& reply.data@.description == Some(description)
            &&& !reply.data@.allow_get_information
            &&& information_answer(reply.data@) == Err::<Arc<ImageDescription>, _>(
                DescriptionError::InformationNotAllowed,
            )
            &&& reply.outcome == DescriptionOutcome::Ready(description.identity)
            &&& !reply.fresh
        },
        answers_output(reply, None) ==> {
            &&& reply.data@.description is None
            &&& !reply.data@.allow_get_information
            &&& reply.outcome == DescriptionOutcome::Failed(DescriptionFailure::OutputDestroyed)
            &&& !reply.fresh
        },
{
}

} // verus!
