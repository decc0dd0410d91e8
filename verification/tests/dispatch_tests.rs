use mqtt_monitor::dispatch::Dispatcher;
use mqtt_monitor::notify::{NotificationKind, Sound, Urgency};

fn dispatcher() -> Dispatcher {
    Dispatcher::new(
        vec![String::from("home/flood/+")],
        vec![String::from("ttn/#")],
        vec![String::from("appliance/washer")],
    )
}

const DOOR_OPEN: &str =
    "{\"uplink_message\":{\"decoded_payload\":{\"DOOR_OPEN_STATUS\":1}}}";

#[test]
fn flood_intent_carries_kind_and_topic() {
    let mut d = dispatcher();
    let intents = d.on_message("home/flood/basement", "true");
    assert_eq!(intents.len(), 1);
    assert_eq!(intents[0].kind, NotificationKind::Flood);
    assert_eq!(intents[0].topic, "home/flood/basement");
}

#[test]
fn flood_needs_both_a_matching_topic_and_the_token() {
    let mut d = dispatcher();
    assert_eq!(d.on_message("home/flood/basement", "TRUE").len(), 0);
    assert_eq!(d.on_message("home/heat/basement", "true").len(), 0);
    assert_eq!(d.on_message("home/flood/basement", "true").len(), 1);
}

#[test]
fn flood_fires_on_every_occurrence() {
    let mut d = dispatcher();
    assert_eq!(d.on_message("home/flood/basement", "true").len(), 1);
    assert_eq!(d.on_message("home/flood/basement", "true").len(), 1);
}

#[test]
fn mailbox_dispatch_fires_on_the_door_open_report() {
    let mut d = dispatcher();
    let intents = d.on_message("ttn/devices/mailbox/up", DOOR_OPEN);
    assert_eq!(intents.len(), 1);
    assert_eq!(intents[0].kind, NotificationKind::Mailbox);
    assert_eq!(intents[0].topic, "ttn/devices/mailbox/up");
}

#[test]
fn unparseable_mailbox_payload_does_not_block_later_messages() {
    let mut d = dispatcher();
    assert_eq!(d.on_message("ttn/devices/mailbox/up", "{broken").len(), 0);
    assert_eq!(d.on_message("ttn/devices/mailbox/up", DOOR_OPEN).len(), 1);
    assert_eq!(d.on_message("home/flood/basement", "true").len(), 1);
}

#[test]
fn appliance_sequence_fires_on_first_and_fourth_message() {
    let mut d = dispatcher();
    let payloads = ["ProgramFinished", "ProgramFinished", "Running", "ProgramFinished"];
    let fired: Vec<usize> = payloads
        .iter()
        .map(|p| d.on_message("appliance/washer", p).len())
        .collect();
    assert_eq!(fired, vec![1, 0, 0, 1]);
}

#[test]
fn appliance_state_only_advances_on_matching_topics() {
    let mut d = dispatcher();
    assert_eq!(d.on_message("appliance/washer", "ProgramFinished").len(), 1);
    // A completion token on a non-matching topic neither fires nor re-arms.
    assert_eq!(d.on_message("appliance/dryer", "Running").len(), 0);
    assert_eq!(d.on_message("appliance/washer", "ProgramFinished").len(), 0);
}

#[test]
fn one_message_can_fire_several_policies() {
    let mut d = Dispatcher::new(
        vec![String::from("shared/#")],
        vec![String::from("shared/#")],
        vec![String::from("shared/#")],
    );
    // The flood token also parses as JSON, but holds no door-status
    // field, so only the flood policy fires.
    let intents = d.on_message("shared/sensor", "true");
    assert_eq!(intents.len(), 1);
    assert_eq!(intents[0].kind, NotificationKind::Flood);
    // The completion token fires the appliance policy alone.
    let intents = d.on_message("shared/sensor", "ProgramFinished");
    assert_eq!(intents.len(), 1);
    assert_eq!(intents[0].kind, NotificationKind::ApplianceDone);
}

#[test]
fn intent_presentation_matches_the_kind() {
    let mut d = dispatcher();
    let intents = d.on_message("home/flood/basement", "true");
    let intent = &intents[0];
    assert_eq!(intent.body(), "Flood event on home/flood/basement");
    assert_eq!(intent.kind.urgency(), Urgency::High);
    assert_eq!(intent.kind.sound(), Sound::Siren);

    let mut d = dispatcher();
    let intents = d.on_message("ttn/devices/mailbox/up", DOOR_OPEN);
    assert_eq!(intents[0].body(), "Mailbox event on ttn/devices/mailbox/up");
    assert_eq!(intents[0].kind.urgency(), Urgency::Normal);
    assert_eq!(intents[0].kind.sound(), Sound::Standard);

    let mut d = dispatcher();
    let intents = d.on_message("appliance/washer", "ProgramFinished");
    assert_eq!(intents[0].body(), "Appliance finished on appliance/washer");
    assert_eq!(intents[0].kind.urgency(), Urgency::Normal);
    assert_eq!(intents[0].kind.sound(), Sound::Standard);
}
