//! Telling clients that the description of an output changed.
use std::sync::Arc;

use vstd::prelude::*;

use crate::color_management::description::ImageDescription;
use crate::color_management::handler::{last_sent_after, ColorManagementHandler};
use crate::color_management::replies::{lemma_events_carry_identity, PreferredEvent};
use crate::color_management::resources::SurfaceFeedbackResourceData;
use crate::color_management::state::ProtocolObjects;

verus! {

/// A live `wp_color_management_output_v1`, with the output that it is paired with.
#[derive(Debug)]
pub struct LiveOutput<R> {
    /// The interface.
    pub resource: R,
    /// The number by which the compositor knows the output; `None` if the output is gone.
    pub output: Option<u64>,
}

/// A live `wp_color_management_surface_feedback_v1`, with its data.
#[derive(Debug)]
pub struct LiveFeedback<'a, R, S, T> {
    /// The interface.
    pub resource: R,
    /// The version of the interface.
    pub version: u32,
    /// The surface that it is paired with; `None` if the surface is gone.
    pub surface: Option<S>,
    /// The data of the interface.
    pub data: &'a mut SurfaceFeedbackResourceData<T>,
}

/// What is known of a live feedback interface: the view of [`LiveFeedback`].
pub struct FeedbackStatus<R, S> {
    /// The interface.
    pub resource: R,
    /// The version of the interface.
    pub version: u32,
    /// The surface that it is paired with; `None` if the surface is gone.
    pub surface: Option<S>,
    /// The identity last told to the client; 0 if none was.
    pub last_sent: u64,
}

impl<'a, R, S, T> View for LiveFeedback<'a, R, S, T> {
    type V = FeedbackStatus<R, S>;

    open spec fn view(&self) -> FeedbackStatus<R, S> {
        FeedbackStatus {
            resource: self.resource,
            version: self.version,
            surface: self.surface,
            last_sent: self.data.last_sent(),
        }
    }
}

impl<'a, R, S, T> LiveFeedback<'a, R, S, T> {
    /// The surface that the data names.
    pub open spec fn paired_surface(self) -> T {
        self.data.paired_surface()
    }
}

/// What is known of each of a series of interfaces.
pub open spec fn statuses<R, S, T>(feedback: Seq<LiveFeedback<R, S, T>>) -> Seq<
    FeedbackStatus<R, S>,
> {
    Seq::new(feedback.len(), |i: int| feedback[i]@)
}

/// The preferred description of a surface changed.
#[derive(Debug)]
pub struct PreferredChange<R> {
    /// The interface to send the event on.
    pub resource: R,
    /// The identity of the new description.
    pub identity: u64,
    /// The event.
    pub event: PreferredEvent,
}

/// What has to be sent after the description of an output changed.
#[derive(Debug)]
pub struct ChangeNotifications<O, F> {
    /// The interfaces to send `image_description_changed` on.
    pub outputs: Vec<O>,
    /// The changes of preferred descriptions to tell, after that.
    pub preferred: Vec<PreferredChange<F>>,
}

/// The interfaces that are paired with the changed output, in order.
pub open spec fn changed_outputs<R>(outputs: Seq<LiveOutput<R>>, changed: u64) -> Seq<R>
    decreases outputs.len(),
{
    if outputs.len() == 0 {
        seq![]
    } else {
        let rest = changed_outputs(outputs.drop_last(), changed);
        if outputs.last().output == Some(changed) {
            rest.push(outputs.last().resource)
        } else {
            rest
        }
    }
}

impl<R, S> FeedbackStatus<R, S> {
    /// Whether the client has to be told of `preferred`: the surface exists, and another
    /// identity was sent last.
    pub open spec fn is_outdated(self, preferred: u64) -> bool {
        self.surface is Some && self.last_sent != preferred
    }

    /// The change that tells the client of `preferred`.
    pub open spec fn change_to(self, preferred: u64) -> PreferredChange<R> {
        PreferredChange {
            resource: self.resource,
            identity: preferred,
            event: PreferredEvent::for_identity(self.version, preferred),
        }
    }

    /// The interface once the client has been told of `preferred` where it has to be.
    pub open spec fn updated(self, preferred: u64) -> Self {
        if self.is_outdated(preferred) {
            FeedbackStatus { last_sent: preferred, ..self }
        } else {
            self
        }
    }
}

/// The changes for the outdated interfaces, in order, where `preferred` gives the identity
/// now preferred for each.
pub open spec fn preferred_changes<R, S>(
    feedback: Seq<FeedbackStatus<R, S>>,
    preferred: Seq<u64>,
) -> Seq<PreferredChange<R>>
    decreases feedback.len(),
{
    if feedback.len() == 0 {
        seq![]
    } else {
        let rest = preferred_changes(feedback.drop_last(), preferred.drop_last());
        if feedback.last().is_outdated(preferred.last()) {
            rest.push(feedback.last().change_to(preferred.last()))
        } else {
            rest
        }
    }
}

/// Picks the interfaces that are paired with the changed output.
pub fn outputs_to_notify<R>(outputs: Vec<LiveOutput<R>>, changed: u64) -> (resources: Vec<R>)
    ensures
        resources@ == changed_outputs(outputs@, changed),
{
    let ghost all = outputs@;
    let mut resources: Vec<R> = Vec::new();
    for live in iter: outputs
        invariant
            iter.seq() == all,
            resources@ == changed_outputs(all.take(iter.index()), changed),
    {
        proof {
            assert(all.take(iter.index() + 1).drop_last() =~= all.take(iter.index()));
        }
        if let Some(output) = live.output {
            if output == changed {
                resources.push(live.resource);
            }
        }
    }
    assert(all.take(all.len() as int) =~= all);
    resources
}

/// The change to tell the client of `live`, if it is outdated. The identity counts as sent
/// from then on.
pub fn preferred_change<R, S, T>(live: LiveFeedback<R, S, T>, preferred: u64) -> (change: Option<
    PreferredChange<R>,
>)
    ensures
        change == (if live@.is_outdated(preferred) {
            Some(live@.change_to(preferred))
        } else {
            None
        }),
        change is Some <==> live.surface is Some && live@.last_sent != preferred,
        change matches Some(change) ==> change.resource == live.resource && change.identity
            == preferred,
        final(live.data).last_sent() == (if live.surface is Some {
            preferred
        } else {
            live@.last_sent
        }),
        final(live.data).paired_surface() == live.paired_surface(),
{
    if live.surface.is_none() || live.data.last_sent_identity() == preferred {
        return None;
    }
    live.data.set_last_sent_identity(preferred);
    Some(
        PreferredChange {
            resource: live.resource,
            identity: preferred,
            event: PreferredEvent::new(live.version, preferred),
        },
    )
}

/// Whether `states` leads from `first` to `last` in `steps` steps.
pub open spec fn leads<D>(states: Seq<D>, first: D, last: D, steps: nat) -> bool {
    &&& states.len() == steps + 1
    &&& states[0] == first
    &&& states[steps as int] == last
}

/// Works out what to send after the output known as `changed` got another description.
///
/// Every interface of that output is notified. Which surfaces are shown on it is not known,
/// so the compositor is asked again for the preferred description of every surface, and the
/// client is told where its identity is not the one last sent. What a client is told counts
/// as sent.
///
/// In the contract, `preferred` holds the identities that the compositor answered with, and
/// `states` the compositor before each question and after the last. Of a surface that is gone
/// it is not asked.
pub fn notify_output_image_description_changed<
    W: ProtocolObjects,
    D: ColorManagementHandler<W>,
    O,
    F,
    T,
>(
    state: &mut D,
    changed: u64,
    outputs: Vec<LiveOutput<O>>,
    feedback: Vec<LiveFeedback<F, W::Surface, T>>,
) -> (notifications: ChangeNotifications<O, F>)
    ensures
        notifications.outputs@ == changed_outputs(outputs@, changed),
        exists|preferred: Seq<u64>, states: Seq<D>|
            {
                &&& preferred.len() == feedback@.len()
                &&& #[trigger] leads(states, *old(state), *final(state), feedback@.len())
                &&& forall|i: int|
                    0 <= i < feedback@.len() ==> {
                        &&& match (#[trigger] feedback@[i]).surface {
                            Some(surface) => exists|s: &mut D, d: Arc<ImageDescription>|
                                {
                                    &&& #[trigger] call_ensures(
                                        <D as ColorManagementHandler<
                                            W,
                                        >>::preferred_image_description,
                                        (s, &surface),
                                        d,
                                    )
                                    &&& *s == states[i]
                                    &&& *final(s) == states[i + 1]
                                    &&& d.identity == preferred[i]
                                },
                            None => states[i + 1] == states[i],
                        }
                        &&& final(feedback@[i].data).last_sent() == feedback@[i]@.updated(
                            preferred[i],
                        ).last_sent
                        &&& final(feedback@[i].data).paired_surface()
                            == feedback@[i].paired_surface()
                    }
                &&& notifications.preferred@ == #[trigger] preferred_changes(
                    statuses(feedback@),
                    preferred,
                )
            },
{
    let outputs = outputs_to_notify(outputs, changed);
    let ghost all = feedback@;
    let ghost known = statuses(all);
    let ghost mut preferred: Seq<u64> = seq![];
    let ghost mut states: Seq<D> = seq![*state];
    let mut changes: Vec<PreferredChange<F>> = Vec::new();
    for live in iter: feedback
        invariant
            iter.seq() == all,
            known == statuses(all),
            preferred.len() == iter.index(),
            leads(states, *old(state), *state, iter.index() as nat),
            forall|i: int|
                0 <= i < iter.index() ==> {
                    &&& match (#[trigger] all[i]).surface {
                        Some(surface) => exists|s: &mut D, d: Arc<ImageDescription>|
                            {
                                &&& #[trigger] call_ensures(
                                    <D as ColorManagementHandler<W>>::preferred_image_description,
                                    (s, &surface),
                                    d,
                                )
                                &&& *s == states[i]
                                &&& *final(s) == states[i + 1]
                                &&& d.identity == preferred[i]
                            },
                        None => states[i + 1] == states[i],
                    }
                    &&& final(all[i].data).last_sent() == all[i]@.updated(preferred[i]).last_sent
                    &&& final(all[i].data).paired_surface() == all[i].paired_surface()
                },
            changes@ == preferred_changes(known.take(iter.index()), preferred),
    {
        let ghost before = preferred;
        let ghost earlier = states;
        let ghost asked = *state;
        let identity: u64 = match &live.surface {
            Some(surface) => {
                let description = state.preferred_image_description(surface);
                assert(exists|s: &mut D, d: Arc<ImageDescription>|
                    {
                        &&& #[trigger] call_ensures(
                            <D as ColorManagementHandler<W>>::preferred_image_description,
                            (s, surface),
                            d,
                        )
                        &&& *s == asked
                        &&& *final(s) == *state
                        &&& d.identity == description.identity
                    });
                description.identity
            },
            None => 0,
        };
        proof {
            preferred = before.push(identity);
            states = earlier.push(*state);
            assert(known.take(iter.index() + 1).drop_last() =~= known.take(iter.index()));
            assert(preferred.drop_last() =~= before);
        }
        if let Some(change) = preferred_change(live, identity) {
            changes.push(change);
        }
    }
    assert(known.take(known.len() as int) =~= known);
    ChangeNotifications { outputs, preferred: changes }
}

/// The interfaces once their clients have been told.
pub open spec fn updated_feedback<R, S>(
    feedback: Seq<FeedbackStatus<R, S>>,
    preferred: Seq<u64>,
) -> Seq<FeedbackStatus<R, S>> {
    Seq::new(feedback.len(), |i: int| feedback[i].updated(preferred[i]))
}

/// A client is not told twice: once it has been told, the same preferred descriptions cause
/// no event.
pub proof fn lemma_preferred_changes_are_told_once<R, S>(
    feedback: Seq<FeedbackStatus<R, S>>,
    preferred: Seq<u64>,
)
    requires
        feedback.len() == preferred.len(),
    ensures
        preferred_changes(updated_feedback(feedback, preferred), preferred) == Seq::<
            PreferredChange<R>,
        >::empty(),
    decreases feedback.len(),
{
    if feedback.len() > 0 {
        lemma_preferred_changes_are_told_once(feedback.drop_last(), preferred.drop_last());
        assert(updated_feedback(feedback, preferred).drop_last() =~= updated_feedback(
            feedback.drop_last(),
            preferred.drop_last(),
        ));
    }
}

/// Every outdated interface gets its change, and no other does.
pub proof fn lemma_preferred_changes_are_complete<R, S>(
    feedback: Seq<FeedbackStatus<R, S>>,
    preferred: Seq<u64>,
    change: PreferredChange<R>,
)
    requires
        feedback.len() == preferred.len(),
    ensures
        preferred_changes(feedback, preferred).contains(change) <==> exists|i: int|
            {
                &&& 0 <= i < feedback.len()
                &&& #[trigger] feedback[i].is_outdated(preferred[i])
                &&& change == feedback[i].change_to(preferred[i])
            },
    decreases feedback.len(),
{
    if feedback.len() > 0 {
        let shorter = feedback.drop_last();
        let fewer = preferred.drop_last();
        lemma_preferred_changes_are_complete(shorter, fewer, change);
        let rest = preferred_changes(shorter, fewer);
        let all = preferred_changes(feedback, preferred);
        let last = feedback.len() - 1;
        if all.contains(change) {
            if feedback.last().is_outdated(preferred.last()) {
                let k = choose|k: int| 0 <= k < all.len() && all[k] == change;
                if k < rest.len() {
                    assert(rest[k] == change);
                } else {
                    assert(feedback[last].is_outdated(preferred[last]));
                }
            }
            if rest.contains(change) {
                let i = choose|i: int|
                    {
                        &&& 0 <= i < shorter.len()
                        &&& #[trigger] shorter[i].is_outdated(fewer[i])
                        &&& change == shorter[i].change_to(fewer[i])
                    };
                assert(feedback[i].is_outdated(preferred[i]));
            }
        }
        if exists|i: int|
            {
                &&& 0 <= i < feedback.len()
                &&& #[trigger] feedback[i].is_outdated(preferred[i])
                &&& change == feedback[i].change_to(preferred[i])
            } {
            let i = choose|i: int|
                {
                    &&& 0 <= i < feedback.len()
                    &&& #[trigger] feedback[i].is_outdated(preferred[i])
                    &&& change == feedback[i].change_to(preferred[i])
                };
            if i < last {
                assert(shorter[i].is_outdated(fewer[i]));
                let k = choose|k: int| 0 <= k < rest.len() && rest[k] == change;
                assert(all[k] == change);
            } else {
                assert(all[all.len() - 1] == change);
            }
        }
    }
}

/// Every interface of the changed output is notified, and no other is.
pub proof fn lemma_changed_outputs_are_complete<R>(
    outputs: Seq<LiveOutput<R>>,
    changed: u64,
    resource: R,
)
    ensures
        changed_outputs(outputs, changed).contains(resource) <==> exists|i: int|
            {
                &&& 0 <= i < outputs.len()
                &&& (#[trigger] outputs[i]).output == Some(changed)
                &&& outputs[i].resource == resource
            },
    decreases outputs.len(),
{
    if outputs.len() > 0 {
        let shorter = outputs.drop_last();
        lemma_changed_outputs_are_complete(shorter, changed, resource);
        let rest = changed_outputs(shorter, changed);
        let all = changed_outputs(outputs, changed);
        let last = outputs.len() - 1;
        if all.contains(resource) {
            if outputs.last().output == Some(changed) {
                let k = choose|k: int| 0 <= k < all.len() && all[k] == resource;
                if k < rest.len() {
                    assert(rest[k] == resource);
                } else {
                    assert(outputs[last].resource == resource);
                }
            }
            if rest.contains(resource) {
                let i = choose|i: int|
                    {
                        &&& 0 <= i < shorter.len()
                        &&& (#[trigger] shorter[i]).output == Some(changed)
                        &&& shorter[i].resource == resource
                    };
                assert(outputs[i].output == Some(changed));
            }
        }
        if exists|i: int|
            {
                &&& 0 <= i < outputs.len()
                &&& (#[trigger] outputs[i]).output == Some(changed)
                &&& outputs[i].resource == resource
            } {
            let i = choose|i: int|
                {
                    &&& 0 <= i < outputs.len()
                    &&& (#[trigger] outputs[i]).output == Some(changed)
                    &&& outputs[i].resource == resource
                };
            if i < last {
                assert(shorter[i].output == Some(changed));
                let k = choose|k: int| 0 <= k < rest.len() && rest[k] == resource;
                assert(all[k] == resource);
            } else {
                assert(all[all.len() - 1] == resource);
            }
        }
    }
}

/// A client that has just been given its preferred description is not told of that same
/// description again, whether or not it asked for a parametric one.
pub proof fn lemma_given_description_is_not_told<R, S>(
    live: FeedbackStatus<R, S>,
    last_sent: u64,
    preferred: Arc<ImageDescription>,
    parametric_only: bool,
)
    requires
        !parametric_only || preferred@.is_parametric(),
        live.last_sent == last_sent_after(last_sent, Some(preferred), parametric_only),
    ensures
        !live.is_outdated(preferred.identity),
{
}

/// Every shift of a preferred identity is told, in either direction, and nothing else is.
///
/// `told` holds the places of the interfaces that are told. They ascend, and they are exactly
/// those whose surface exists and whose identity last sent differs from the one now
/// preferred. Change number `k` goes to the interface at place `told[k]` and carries the
/// identity now preferred there: whole from version 2 on, its lower half before.
pub proof fn lemma_every_shift_is_told<R, S>(
    feedback: Seq<FeedbackStatus<R, S>>,
    preferred: Seq<u64>,
) -> (told: Seq<int>)
    requires
        feedback.len() == preferred.len(),
    ensures
        preferred_changes(feedback, preferred).len() == told.len(),
        forall|k: int|
            0 <= k < told.len() ==> {
                let i = #[trigger] told[k];
                let change = preferred_changes(feedback, preferred)[k];
                &&& 0 <= i < feedback.len()
                &&& change.resource == feedback[i].resource
                &&& change.identity == preferred[i]
                &&& match change.event {
                    PreferredEvent::Changed2 { hi, lo } => feedback[i].version >= 2 && hi
                        * 0x1_0000_0000 + lo == preferred[i],
                    PreferredEvent::Changed { lo } => feedback[i].version < 2 && lo == preferred[i]
                        % 0x1_0000_0000,
                }
            },
        forall|j: int, k: int| 0 <= j < k < told.len() ==> #[trigger] told[j] < #[trigger] told[k],
        forall|i: int|
            0 <= i < feedback.len() ==> (told.contains(i) <==> (
            #[trigger] feedback[i]).surface is Some && feedback[i].last_sent != preferred[i]),
    decreases feedback.len(),
{
    if feedback.len() == 0 {
        seq![]
    } else {
        let last = feedback.len() - 1;
        let shorter = feedback.drop_last();
        let fewer = preferred.drop_last();
        let rest = lemma_every_shift_is_told(shorter, fewer);
        let shifted = feedback[last].surface is Some && feedback[last].last_sent
            != preferred[last];
        let told = if shifted {
            rest.push(last)
        } else {
            rest
        };
        lemma_events_carry_identity(feedback[last].version, preferred[last]);
        assert forall|k: int| 0 <= k < rest.len() implies #[trigger] told[k] == rest[k] && told[k]
            < last by {
            assert(0 <= rest[k] < shorter.len());
        }
        assert forall|i: int| 0 <= i < feedback.len() implies (told.contains(i) <==> (
        #[trigger] feedback[i]).surface is Some && feedback[i].last_sent != preferred[i]) by {
            if i == last {
                if shifted {
                    assert(told[rest.len() as int] == last);
                }
            } else {
                assert(shorter[i] == feedback[i] && fewer[i] == preferred[i]);
                if rest.contains(i) {
                    let k = rest.index_of(i);
                    assert(told[k] == i);
                }
                if told.contains(i) {
                    let k = told.index_of(i);
                    assert(k < rest.len() && rest[k] == i);
                }
            }
        }
        told
    }
}

/// Once a client has been told, the identity now preferred counts as sent; of a surface that
/// is gone, the identity sent before stays. Nothing else changes.
pub proof fn lemma_told_identity_counts_as_sent<R, S>(
    live: FeedbackStatus<R, S>,
    preferred: u64,
)
    ensures
        live.surface is Some ==> live.updated(preferred).last_sent == preferred,
        live.surface is None ==> live.updated(preferred).last_sent == live.last_sent,
        live.updated(preferred).resource == live.resource,
        live.updated(preferred).version == live.version,
        live.updated(preferred).surface == live.surface,
{
}

/// What is known of an interface is what it holds, and what its data has recorded as sent.
pub proof fn lemma_status_is_own<R, S, T>(feedback: Seq<LiveFeedback<R, S, T>>, i: int)
    requires
        0 <= i < feedback.len(),
    ensures
        statuses(feedback).len() == feedback.len(),
        statuses(feedback)[i].resource == feedback[i].resource,
        statuses(feedback)[i].version == feedback[i].version,
        statuses(feedback)[i].surface == feedback[i].surface,
        statuses(feedback)[i].last_sent == feedback[i].data.last_sent(),
        statuses(feedback)[i] == feedback[i]@,
        feedback[i].paired_surface() == feedback[i].data.paired_surface(),
{
}

/// `image_description_changed` goes to the interfaces of the changed output, in order, and to
/// no other.
///
/// `notified` holds their places: they ascend, and they are exactly those of the interfaces
/// whose output is the changed one.
pub proof fn lemma_changed_outputs_are_notified<R>(
    outputs: Seq<LiveOutput<R>>,
    changed: u64,
) -> (notified: Seq<int>)
    ensures
        changed_outputs(outputs, changed).len() == notified.len(),
        forall|k: int|
            0 <= k < notified.len() ==> {
                &&& 0 <= #[trigger] notified[k] < outputs.len()
                &&& changed_outputs(outputs, changed)[k] == outputs[notified[k]].resource
            },
        forall|j: int, k: int|
            0 <= j < k < notified.len() ==> #[trigger] notified[j] < #[trigger] notified[k],
        forall|i: int|
            0 <= i < outputs.len() ==> (notified.contains(i) <==> (#[trigger] outputs[i]).output
                == Some(changed)),
    decreases outputs.len(),
{
    if outputs.len() == 0 {
        seq![]
    } else {
        let last = outputs.len() - 1;
        let shorter = outputs.drop_last();
        let rest = lemma_changed_outputs_are_notified(shorter, changed);
        let hit = outputs[last].output == Some(changed);
        let notified = if hit {
            rest.push(last)
        } else {
            rest
        };
        assert forall|k: int| 0 <= k < rest.len() implies #[trigger] notified[k] == rest[k]
            && notified[k] < last by {
            assert(0 <= rest[k] < shorter.len());
        }
        assert forall|i: int| 0 <= i < outputs.len() implies (notified.contains(i) <==> (
        #[trigger] outputs[i]).output == Some(changed)) by {
            if i == last {
                if hit {
                    assert(notified[rest.len() as int] == last);
                }
            } else {
                assert(shorter[i] == outputs[i]);
                if rest.contains(i) {
                    let k = rest.index_of(i);
                    assert(notified[k] == i);
                }
                if notified.contains(i) {
                    let k = notified.index_of(i);
                    assert(k < rest.len() && rest[k] == i);
                }
            }
        }
        notified
    }
}

/// The states of the compositor lead from the first to the last, with one more state than
/// steps.
pub proof fn lemma_states_lead<D>(states: Seq<D>, first: D, last: D, steps: nat)
    ensures
        leads(states, first, last, steps) <==> states.len() == steps + 1 && states[0] == first
            && states[steps as int] == last,
{
}

} // verus!
