//! The events of `wp_image_description_info_v1`.
use vstd::prelude::*;

use crate::color_management::description::{
    Chromaticities, DescriptionContent, ImageDescription, Luminances, MasteringLuminance,
    PrimariesDef, TransferFunctionDef,
};
use crate::protocol::{Primaries, TransferFunction};

verus! {

/// An event of `wp_image_description_info_v1`.
#[derive(Debug, Clone, Copy, PartialEq, Eq)]
pub enum InformationEvent {
    /// `primaries`.
    Primaries(Chromaticities),
    /// `primaries_named`.
    PrimariesNamed(Primaries),
    /// `tf_named`.
    TfNamed(TransferFunction),
    /// `tf_power`.
    TfPower(u32),
    /// `luminances`.
    Luminances(Luminances),
    /// `target_primaries`.
    TargetPrimaries(Chromaticities),
    /// `target_luminance`.
    TargetLuminance(MasteringLuminance),
    /// `target_max_cll`.
    TargetMaxCll(u32),
    /// `target_max_fall`.
    TargetMaxFall(u32),
    /// `done`, which destroys the object.
    Done,
}

/// No event, or just one.
pub open spec fn optional_event(event: Option<InformationEvent>) -> Seq<InformationEvent> {
    match event {
        Some(event) => seq![event],
        None => seq![],
    }
}

/// The event about the primaries, if there are any.
pub open spec fn primaries_event(content: DescriptionContent) -> Option<InformationEvent> {
    match content.primaries {
        Some(PrimariesDef::Named(p)) => Some(InformationEvent::PrimariesNamed(p)),
        Some(PrimariesDef::Custom(c)) => Some(InformationEvent::Primaries(c)),
        None => None,
    }
}

/// The event about the transfer function, if there is one.
pub open spec fn tf_event(content: DescriptionContent) -> Option<InformationEvent> {
    match content.transfer_function {
        Some(TransferFunctionDef::Named(tf)) => Some(InformationEvent::TfNamed(tf)),
        Some(TransferFunctionDef::Power(eexp)) => Some(InformationEvent::TfPower(eexp)),
        None => None,
    }
}

/// The event about the luminances, if they are set.
pub open spec fn luminances_event(content: DescriptionContent) -> Option<InformationEvent> {
    match content.luminances {
        Some(l) => Some(InformationEvent::Luminances(l)),
        None => None,
    }
}

/// The event about the mastering primaries, if they are set.
pub open spec fn target_primaries_event(content: DescriptionContent) -> Option<InformationEvent> {
    match content.mastering_primaries {
        Some(c) => Some(InformationEvent::TargetPrimaries(c)),
        None => None,
    }
}

/// The event about the mastering luminance, if it is set.
pub open spec fn target_luminance_event(content: DescriptionContent) -> Option<InformationEvent> {
    match content.mastering_luminance {
        Some(l) => Some(InformationEvent::TargetLuminance(l)),
        None => None,
    }
}

/// The event about the maximum content light level, if it is set.
pub open spec fn target_max_cll_event(content: DescriptionContent) -> Option<InformationEvent> {
    match content.max_cll {
        Some(c) => Some(InformationEvent::TargetMaxCll(c)),
        None => None,
    }
}

/// The event about the maximum frame-average light level, if it is set.
pub open spec fn target_max_fall_event(content: DescriptionContent) -> Option<InformationEvent> {
    match content.max_fall {
        Some(f) => Some(InformationEvent::TargetMaxFall(f)),
        None => None,
    }
}

/// The events that inform about a description: one for each part that is set, then `done`.
pub open spec fn information_events(content: DescriptionContent) -> Seq<InformationEvent> {
    optional_event(primaries_event(content))
        + optional_event(tf_event(content))
        + optional_event(luminances_event(content))
        + optional_event(target_primaries_event(content))
        + optional_event(target_luminance_event(content))
        + optional_event(target_max_cll_event(content))
        + optional_event(target_max_fall_event(content))
        + seq![InformationEvent::Done]
}

/// Appends an event if there is one.
fn push_optional(events: &mut Vec<InformationEvent>, event: Option<InformationEvent>)
    ensures
        final(events)@ == old(events)@ + optional_event(event),
{
    if let Some(event) = event {
        events.push(event);
    }
}

/// Every applicable information event, followed by `done`.
///
/// The bytes of an ICC profile are not sent back.
pub fn emit_information_events(desc: &ImageDescription) -> (events: Vec<InformationEvent>)
    ensures
        events@ == information_events(desc@),
{
    let primaries = match desc.primaries {
        Some(PrimariesDef::Named(p)) => Some(InformationEvent::PrimariesNamed(p)),
        Some(PrimariesDef::Custom(c)) => Some(InformationEvent::Primaries(c)),
        None => None,
    };
    let tf = match desc.transfer_function {
        Some(TransferFunctionDef::Named(tf)) => Some(InformationEvent::TfNamed(tf)),
        Some(TransferFunctionDef::Power(eexp)) => Some(InformationEvent::TfPower(eexp)),
        None => None,
    };
    let luminances = match desc.luminances {
        Some(l) => Some(InformationEvent::Luminances(l)),
        None => None,
    };
    let target_primaries = match desc.mastering_primaries {
        Some(c) => Some(InformationEvent::TargetPrimaries(c)),
        None => None,
    };
    let target_luminance = match desc.mastering_luminance {
        Some(l) => Some(InformationEvent::TargetLuminance(l)),
        None => None,
    };
    let target_max_cll = match desc.max_cll {
        Some(c) => Some(InformationEvent::TargetMaxCll(c)),
        None => None,
    };
    let target_max_fall = match desc.max_fall {
        Some(f) => Some(InformationEvent::TargetMaxFall(f)),
        None => None,
    };
    let mut events: Vec<InformationEvent> = Vec::new();
    push_optional(&mut events, primaries);
    assert(events@ == optional_event(primaries_event(desc@)));
    push_optional(&mut events, tf);
    push_optional(&mut events, luminances);
    push_optional(&mut events, target_primaries);
    push_optional(&mut events, target_luminance);
    push_optional(&mut events, target_max_cll);
    push_optional(&mut events, target_max_fall);
    push_optional(&mut events, Some(InformationEvent::Done));
    events
}

/// Whether an event is the one for some part of the description, or `done`.
pub open spec fn is_event_of(content: DescriptionContent, event: InformationEvent) -> bool {
    ||| primaries_event(content) == Some(event)
    ||| tf_event(content) == Some(event)
    ||| luminances_event(content) == Some(event)
    ||| target_primaries_event(content) == Some(event)
    ||| target_luminance_event(content) == Some(event)
    ||| target_max_cll_event(content) == Some(event)
    ||| target_max_fall_event(content) == Some(event)
    ||| event == InformationEvent::Done
}

/// An event is sent exactly when it is the one for some part of the description, or `done`.
proof fn lemma_event_membership(content: DescriptionContent, event: InformationEvent)
    ensures
        information_events(content).contains(event) <==> is_event_of(content, event),
{
    lemma_optional_contains(primaries_event(content), event);
    lemma_optional_contains(tf_event(content), event);
    lemma_optional_contains(luminances_event(content), event);
    lemma_optional_contains(target_primaries_event(content), event);
    lemma_optional_contains(target_luminance_event(content), event);
    lemma_optional_contains(target_max_cll_event(content), event);
    lemma_optional_contains(target_max_fall_event(content), event);
    lemma_optional_contains(Some(InformationEvent::Done), event);
    let s1 = optional_event(primaries_event(content));
    let s2 = s1 + optional_event(tf_event(content));
    let s3 = s2 + optional_event(luminances_event(content));
    let s4 = s3 + optional_event(target_primaries_event(content));
    let s5 = s4 + optional_event(target_luminance_event(content));
    let s6 = s5 + optional_event(target_max_cll_event(content));
    let s7 = s6 + optional_event(target_max_fall_event(content));
    lemma_concat_contains(s1, optional_event(tf_event(content)), event);
    lemma_concat_contains(s2, optional_event(luminances_event(content)), event);
    lemma_concat_contains(s3, optional_event(target_primaries_event(content)), event);
    lemma_concat_contains(s4, optional_event(target_luminance_event(content)), event);
    lemma_concat_contains(s5, optional_event(target_max_cll_event(content)), event);
    lemma_concat_contains(s6, optional_event(target_max_fall_event(content)), event);
    lemma_concat_contains(s7, seq![InformationEvent::Done], event);
}

proof fn lemma_optional_contains(optional: Option<InformationEvent>, event: InformationEvent)
    ensures
        optional_event(optional).contains(event) <==> optional == Some(event),
{
    if optional == Some(event) {
        assert(optional_event(optional)[0] == event);
    }
}

proof fn lemma_concat_contains(
    a: Seq<InformationEvent>,
    b: Seq<InformationEvent>,
    event: InformationEvent,
)
    ensures
        (a + b).contains(event) <==> a.contains(event) || b.contains(event),
{
    if a.contains(event) {
        assert((a + b)[a.index_of(event)] == event);
    }
    if b.contains(event) {
        assert((a + b)[a.len() + b.index_of(event)] == event);
    }
    if (a + b).contains(event) {
        let i = (a + b).index_of(event);
        if i < a.len() {
            assert(a[i] == event);
        } else {
            assert(b[i - a.len()] == event);
        }
    }
}

/// The information events end with `done` and hold it nowhere else.
pub proof fn lemma_information_ends_with_done(content: DescriptionContent, i: int)
    requires
        0 <= i < information_events(content).len(),
    ensures
        information_events(content)[i] == InformationEvent::Done <==> i == information_events(
            content,
        ).len() - 1,
{
    let body = information_events(content).drop_last();
    if i < body.len() {
        let event = information_events(content)[i];
        let s1 = optional_event(primaries_event(content));
        let s2 = s1 + optional_event(tf_event(content));
        let s3 = s2 + optional_event(luminances_event(content));
        let s4 = s3 + optional_event(target_primaries_event(content));
        let s5 = s4 + optional_event(target_luminance_event(content));
        let s6 = s5 + optional_event(target_max_cll_event(content));
        let s7 = s6 + optional_event(target_max_fall_event(content));
        assert(body =~= s7);
        assert(s7[i] == event);
    }
}

/// The information events tell all of a description but its ICC profile and whether it is
/// Windows-scRGB: two descriptions with the same events agree on everything else.
pub proof fn lemma_information_determines_parameters(a: DescriptionContent, b: DescriptionContent)
    requires
        information_events(a) == information_events(b),
    ensures
        a.primaries == b.primaries,
        a.transfer_function == b.transfer_function,
        a.luminances == b.luminances,
        a.mastering_primaries == b.mastering_primaries,
        a.mastering_luminance == b.mastering_luminance,
        a.max_cll == b.max_cll,
        a.max_fall == b.max_fall,
{
    lemma_information_conveys_parameters(a, b);
    lemma_information_conveys_parameters(b, a);
}

/// What is an event of one description is one of every description with the same events.
proof fn lemma_shared_event(
    a: DescriptionContent,
    b: DescriptionContent,
    event: InformationEvent,
)
    requires
        information_events(a) == information_events(b),
    ensures
        is_event_of(a, event) <==> is_event_of(b, event),
{
    lemma_event_membership(a, event);
    lemma_event_membership(b, event);
}

/// Every parameter that `a` has set is an event of `b`, so `b` has it set too.
proof fn lemma_information_conveys_parameters(a: DescriptionContent, b: DescriptionContent)
    requires
        information_events(a) == information_events(b),
    ensures
        a.primaries is Some ==> a.primaries == b.primaries,
        a.transfer_function is Some ==> a.transfer_function == b.transfer_function,
        a.luminances is Some ==> a.luminances == b.luminances,
        a.mastering_primaries is Some ==> a.mastering_primaries == b.mastering_primaries,
        a.mastering_luminance is Some ==> a.mastering_luminance == b.mastering_luminance,
        a.max_cll is Some ==> a.max_cll == b.max_cll,
        a.max_fall is Some ==> a.max_fall == b.max_fall,
{
    assert forall|event: InformationEvent| is_event_of(a, event) implies #[trigger] is_event_of(
        b,
        event,
    ) by {
        lemma_shared_event(a, b, event);
    }
    if let Some(event) = primaries_event(a) {
        assert(is_event_of(b, event));
    }
    if let Some(event) = tf_event(a) {
        assert(is_event_of(b, event));
    }
    if let Some(event) = luminances_event(a) {
        assert(is_event_of(b, event));
    }
    if let Some(event) = target_primaries_event(a) {
        assert(is_event_of(b, event));
    }
    if let Some(event) = target_luminance_event(a) {
        assert(is_event_of(b, event));
    }
    if let Some(event) = target_max_cll_event(a) {
        assert(is_event_of(b, event));
    }
    if let Some(event) = target_max_fall_event(a) {
        assert(is_event_of(b, event));
    }
}

/// The events carry the description's own values: for each part, the event with a value is
/// sent exactly if that value is the one that the description has.
pub proof fn lemma_information_tells_own_values(content: DescriptionContent)
    ensures
        forall|p: Primaries|
            #[trigger] information_events(content).contains(InformationEvent::PrimariesNamed(p))
                <==> content.primaries == Some(PrimariesDef::Named(p)),
        forall|c: Chromaticities|
            #[trigger] information_events(content).contains(InformationEvent::Primaries(c))
                <==> content.primaries == Some(PrimariesDef::Custom(c)),
        forall|tf: TransferFunction|
            #[trigger] information_events(content).contains(InformationEvent::TfNamed(tf))
                <==> content.transfer_function == Some(TransferFunctionDef::Named(tf)),
        forall|eexp: u32|
            #[trigger] information_events(content).contains(InformationEvent::TfPower(eexp))
                <==> content.transfer_function == Some(TransferFunctionDef::Power(eexp)),
        forall|l: Luminances|
            #[trigger] information_events(content).contains(InformationEvent::Luminances(l))
                <==> content.luminances == Some(l),
        forall|c: Chromaticities|
            #[trigger] information_events(content).contains(InformationEvent::TargetPrimaries(c))
                <==> content.mastering_primaries == Some(c),
        forall|l: MasteringLuminance|
            #[trigger] information_events(content).contains(InformationEvent::TargetLuminance(l))
                <==> content.mastering_luminance == Some(l),
        forall|max_cll: u32|
            #[trigger] information_events(content).contains(InformationEvent::TargetMaxCll(max_cll))
                <==> content.max_cll == Some(max_cll),
        forall|max_fall: u32|
            #[trigger] information_events(content).contains(InformationEvent::TargetMaxFall(max_fall))
                <==> content.max_fall == Some(max_fall),
        information_events(content).contains(InformationEvent::Done),
{
    assert forall|event: InformationEvent| #[trigger]
        information_events(content).contains(event) <==> is_event_of(content, event) by {
        lemma_event_membership(content, event);
    }
}

/// The place of an event among those about a description.
pub open spec fn event_rank(event: InformationEvent) -> int {
    match event {
        InformationEvent::Primaries(_) | InformationEvent::PrimariesNamed(_) => 0,
        InformationEvent::TfNamed(_) | InformationEvent::TfPower(_) => 1,
        InformationEvent::Luminances(_) => 2,
        InformationEvent::TargetPrimaries(_) => 3,
        InformationEvent::TargetLuminance(_) => 4,
        InformationEvent::TargetMaxCll(_) => 5,
        InformationEvent::TargetMaxFall(_) => 6,
        InformationEvent::Done => 7,
    }
}

/// The events come in the order primaries, transfer function, luminances, target primaries,
/// target luminance, content light level, frame-average light level, `done`, at most one of
/// each.
pub proof fn lemma_information_is_in_order(content: DescriptionContent, i: int, j: int)
    requires
        0 <= i < j < information_events(content).len(),
    ensures
        event_rank(information_events(content)[i]) < event_rank(information_events(content)[j]),
{
    let s1 = optional_event(primaries_event(content));
    let s2 = s1 + optional_event(tf_event(content));
    let s3 = s2 + optional_event(luminances_event(content));
    let s4 = s3 + optional_event(target_primaries_event(content));
    let s5 = s4 + optional_event(target_luminance_event(content));
    let s6 = s5 + optional_event(target_max_cll_event(content));
    let s7 = s6 + optional_event(target_max_fall_event(content));
    lemma_rank_extends(seq![], primaries_event(content), 0);
    assert(Seq::<InformationEvent>::empty() + s1 =~= s1);
    lemma_rank_extends(s1, tf_event(content), 1);
    lemma_rank_extends(s2, luminances_event(content), 2);
    lemma_rank_extends(s3, target_primaries_event(content), 3);
    lemma_rank_extends(s4, target_luminance_event(content), 4);
    lemma_rank_extends(s5, target_max_cll_event(content), 5);
    lemma_rank_extends(s6, target_max_fall_event(content), 6);
    lemma_rank_extends(s7, Some(InformationEvent::Done), 7);
}

/// Whether events come in order, all of them of a rank below `bound`.
spec fn ranked_below(events: Seq<InformationEvent>, bound: int) -> bool {
    &&& forall|i: int|
        0 <= i < events.len() ==> event_rank(#[trigger] events[i]) < bound
    &&& forall|i: int, j: int|
        0 <= i < j < events.len() ==> event_rank(#[trigger] events[i]) < event_rank(
            #[trigger] events[j],
        )
}

proof fn lemma_rank_extends(
    events: Seq<InformationEvent>,
    event: Option<InformationEvent>,
    rank: int,
)
    requires
        ranked_below(events, rank),
        event matches Some(e) ==> event_rank(e) == rank,
    ensures
        ranked_below(events + optional_event(event), rank + 1),
{
}

} // verus!
