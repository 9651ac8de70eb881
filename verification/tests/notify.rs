use std::sync::Arc;

use smithay_color::color_management::handler::preferred_reply;
use smithay_color::color_management::notify::{
    outputs_to_notify, preferred_change, LiveFeedback, LiveOutput,
};
use smithay_color::color_management::replies::PreferredEvent;
use smithay_color::color_management::state::ProtocolObjects;
use smithay_color::color_management::{
    notify_output_image_description_changed, ColorManagementCapabilities, ColorManagementHandler,
    ColorManagementState, ImageDescription, PrimariesDef, SurfaceFeedbackResourceData,
    TransferFunctionDef,
};
use smithay_color::protocol::{Primaries, TransferFunction};

struct Objects;

impl ProtocolObjects for Objects {
    type Global = ();
    type OutputResource = ();
    type FeedbackResource = ();
    type InfoResource = ();
    type DescriptionResource = ();
    type Output = ();
    type Surface = u32;
}

/// A compositor that recommends HDR on every surface but surface 0.
struct Compositor {
    state: ColorManagementState<Objects>,
    hdr: Arc<ImageDescription>,
    asked: Vec<u32>,
}

impl ColorManagementHandler<Objects> for Compositor {
    fn color_management_state(&mut self) -> &mut ColorManagementState<Objects> {
        &mut self.state
    }

    fn preferred_image_description(&mut self, surface: &u32) -> Arc<ImageDescription> {
        self.asked.push(*surface);
        if *surface == 0 {
            self.state.interner().srgb_default()
        } else {
            Arc::clone(&self.hdr)
        }
    }
}

fn compositor() -> Compositor {
    let mut state = ColorManagementState::new((), ColorManagementCapabilities::conservative());
    let mut hdr = (*state.interner().srgb_default()).clone();
    hdr.primaries = Some(PrimariesDef::Named(Primaries::Bt2020));
    hdr.transfer_function = Some(TransferFunctionDef::Named(TransferFunction::St2084Pq));
    let hdr = state.interner_mut().intern(hdr);
    Compositor { state, hdr, asked: Vec::new() }
}

/// Data of an interface whose client was last told `last_sent`.
fn data(last_sent: u64) -> SurfaceFeedbackResourceData<()> {
    let mut data = SurfaceFeedbackResourceData::new(());
    data.set_last_sent_identity(last_sent);
    data
}

fn live<'a>(
    resource: &'static str,
    version: u32,
    surface: Option<u32>,
    data: &'a mut SurfaceFeedbackResourceData<()>,
) -> LiveFeedback<'a, &'static str, u32, ()> {
    LiveFeedback { resource, version, surface, data }
}

fn output(resource: &'static str, output: Option<u64>) -> LiveOutput<&'static str> {
    LiveOutput { resource, output }
}

#[test]
fn interfaces_of_the_changed_output_are_notified() {
    let outputs = vec![
        output("a", Some(1)),
        output("b", Some(2)),
        output("c", None),
        output("d", Some(1)),
    ];
    assert_eq!(outputs_to_notify(outputs, 1), vec!["a", "d"]);
    assert!(outputs_to_notify(vec![output("a", None), output("b", Some(2))], 1).is_empty());
}

#[test]
fn only_outdated_clients_are_told() {
    let mut told = data(5);
    assert!(preferred_change(live("a", 2, Some(0), &mut told), 5).is_none());
    assert_eq!(told.last_sent_identity(), 5);
    let mut gone = data(4);
    assert!(preferred_change(live("a", 2, None, &mut gone), 5).is_none());
    assert_eq!(gone.last_sent_identity(), 4);
    let mut outdated = data(4);
    let change = preferred_change(live("a", 2, Some(0), &mut outdated), 5).unwrap();
    assert_eq!(change.resource, "a");
    assert_eq!(change.identity, 5);
    assert_eq!(change.event, PreferredEvent::Changed2 { hi: 0, lo: 5 });
    assert_eq!(outdated.last_sent_identity(), 5);
    let mut never = data(0);
    let change = preferred_change(live("a", 1, Some(0), &mut never), 5).unwrap();
    assert_eq!(change.event, PreferredEvent::Changed { lo: 5 });
}

#[test]
fn a_change_reaches_outputs_and_outdated_surfaces() {
    let mut compositor = compositor();
    let mut all = [data(1), data(1), data(1), data(0), data(2)];
    let [srgb, hdr, gone, old, told] = &mut all;
    let notifications = notify_output_image_description_changed(
        &mut compositor,
        3,
        vec![output("a", Some(3)), output("b", Some(4))],
        vec![
            live("srgb", 2, Some(0), srgb),
            live("hdr", 2, Some(1), hdr),
            live("gone", 2, None, gone),
            live("old", 1, Some(2), old),
            live("told", 2, Some(3), told),
        ],
    );
    assert_eq!(notifications.outputs, vec!["a"]);
    assert_eq!(notifications.preferred.len(), 2);
    assert_eq!(notifications.preferred[0].resource, "hdr");
    assert_eq!(notifications.preferred[0].identity, 2);
    assert_eq!(notifications.preferred[0].event, PreferredEvent::Changed2 { hi: 0, lo: 2 });
    assert_eq!(notifications.preferred[1].resource, "old");
    assert_eq!(notifications.preferred[1].event, PreferredEvent::Changed { lo: 2 });
    assert_eq!(compositor.asked, vec![0, 1, 2, 3]);
    let sent: Vec<u64> = all.iter().map(|data| data.last_sent_identity()).collect();
    assert_eq!(sent, vec![1, 2, 1, 2, 2]);
}

#[test]
fn a_client_is_not_told_twice() {
    let mut compositor = compositor();
    let mut data = data(1);
    for changes in [1, 0] {
        let notifications = notify_output_image_description_changed(
            &mut compositor,
            3,
            Vec::<LiveOutput<()>>::new(),
            vec![live("a", 2, Some(1), &mut data)],
        );
        assert_eq!(notifications.preferred.len(), changes);
    }
}

#[test]
fn a_client_that_asked_is_not_told_of_the_same() {
    for parametric_only in [false, true] {
        let mut compositor = compositor();
        let mut data = data(0);
        let hdr = Arc::clone(&compositor.hdr);
        preferred_reply(&mut data, Some(hdr), parametric_only);
        let notifications = notify_output_image_description_changed(
            &mut compositor,
            3,
            Vec::<LiveOutput<()>>::new(),
            vec![live("a", 2, Some(1), &mut data)],
        );
        assert!(notifications.preferred.is_empty());
    }
}
