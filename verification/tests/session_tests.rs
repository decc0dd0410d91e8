use mqtt_monitor::dispatch::Dispatcher;
use mqtt_monitor::notify::NotificationKind;
use mqtt_monitor::session::{BrokerSession, SessionAction, SessionEvent};

fn session() -> BrokerSession {
    let dispatcher = Dispatcher::new(
        vec![String::from("home/flood/+")],
        Vec::new(),
        Vec::new(),
    );
    BrokerSession::new(
        vec![String::from("home/flood/+"), String::from("home/flood/meta/#")],
        dispatcher,
    )
}

#[test]
fn connected_subscribes_to_the_configured_topics() {
    let mut s = session();
    let action = s.handle_event(&SessionEvent::Connected);
    match action {
        SessionAction::Subscribe { topics } => {
            assert_eq!(
                topics,
                vec![String::from("home/flood/+"), String::from("home/flood/meta/#")]
            );
        }
        _ => panic!("expected a subscribe action"),
    }
}

#[test]
fn transient_error_backs_off_and_reconnect_resubscribes_the_same_set() {
    let mut s = session();
    let first = match s.handle_event(&SessionEvent::Connected) {
        SessionAction::Subscribe { topics } => topics,
        _ => panic!("expected a subscribe action"),
    };
    assert!(matches!(
        s.handle_event(&SessionEvent::TransportError),
        SessionAction::Backoff
    ));
    let second = match s.handle_event(&SessionEvent::Connected) {
        SessionAction::Subscribe { topics } => topics,
        _ => panic!("expected a subscribe action"),
    };
    assert_eq!(first, second);
}

#[test]
fn publishes_are_dispatched_and_other_events_ignored() {
    let mut s = session();
    let action = s.handle_event(&SessionEvent::Publish {
        topic: String::from("home/flood/basement"),
        payload: String::from("true"),
    });
    match action {
        SessionAction::Deliver { intents } => {
            assert_eq!(intents.len(), 1);
            assert_eq!(intents[0].kind, NotificationKind::Flood);
        }
        _ => panic!("expected a deliver action"),
    }
    let action = s.handle_event(&SessionEvent::Publish {
        topic: String::from("home/flood/basement"),
        payload: String::from("false"),
    });
    match action {
        SessionAction::Deliver { intents } => assert_eq!(intents.len(), 0),
        _ => panic!("expected a deliver action"),
    }
    assert!(matches!(s.handle_event(&SessionEvent::Other), SessionAction::Ignore));
}

#[test]
fn an_error_between_publishes_loses_no_decision() {
    let mut s = session();
    assert!(matches!(
        s.handle_event(&SessionEvent::TransportError),
        SessionAction::Backoff
    ));
    let action = s.handle_event(&SessionEvent::Publish {
        topic: String::from("home/flood/basement"),
        payload: String::from("true"),
    });
    match action {
        SessionAction::Deliver { intents } => assert_eq!(intents.len(), 1),
        _ => panic!("expected a deliver action"),
    }
}
