use sensor_relay::session::{BrokerSession, Phase, SessionState};
use sensor_relay::transport::{connect_options, subscription, ConnectOptions, Delivery, SubscribeRequest};

fn state(phase: Phase, session_present: bool, subscription_registered: bool) -> SessionState {
    SessionState { phase, session_present, subscription_registered }
}

#[test]
fn a_new_session_is_disconnected() {
    let s = BrokerSession::new();
    assert_eq!(s.state(), state(Phase::Disconnected, false, false));
    assert!(!s.is_connected());
    assert_eq!(s.ensure_subscription(), None);
}

#[test]
fn connect_asks_for_a_persistent_session_with_a_last_will() {
    let mut s = BrokerSession::new();
    let options = s.connect().unwrap();
    assert_eq!(
        options,
        ConnectOptions {
            client_id: String::from("sensor-aggregator"),
            protocol_version: 5,
            clean_session: false,
            will_topic: String::from("lwt"),
            will_payload: String::from("Sync consumer v5 lost connection"),
            will_delivery: Delivery::AtMostOnce,
        }
    );
    assert_eq!(options, connect_options());
    assert_eq!(s.state(), state(Phase::Connecting, false, false));
    assert!(!s.is_connected());
}

#[test]
fn connect_does_nothing_unless_disconnected() {
    let mut s = BrokerSession::new();
    assert!(s.connect().is_some());
    assert_eq!(s.connect(), None);
    assert_eq!(s.state().phase, Phase::Connecting);
    assert!(s.established(true));
    assert_eq!(s.connect(), None);
    assert_eq!(s.state(), state(Phase::Connected, true, true));
}

#[test]
fn a_fresh_session_needs_the_subscription() {
    let mut s = BrokerSession::new();
    s.connect();
    assert!(s.established(false));
    assert!(s.is_connected());
    assert_eq!(s.state(), state(Phase::Connected, false, false));
    let request = s.ensure_subscription().unwrap();
    assert_eq!(
        request,
        SubscribeRequest {
            topic: String::from("home/sensors"),
            delivery: Delivery::AtLeastOnce,
            subscription_id: 1,
        }
    );
    assert_eq!(request, subscription());
    assert_eq!(s.ensure_subscription(), Some(subscription()));
    assert!(s.subscribed());
    assert_eq!(s.state(), state(Phase::Connected, false, true));
    assert_eq!(s.ensure_subscription(), None);
    assert_eq!(s.ensure_subscription(), None);
}

#[test]
fn a_resumed_session_needs_no_subscription() {
    let mut s = BrokerSession::new();
    s.connect();
    assert!(s.established(true));
    assert_eq!(s.state(), state(Phase::Connected, true, true));
    assert_eq!(s.ensure_subscription(), None);
}

#[test]
fn events_out_of_place_change_nothing() {
    let mut s = BrokerSession::new();
    assert!(!s.established(true));
    assert!(!s.abandoned());
    assert!(!s.subscribed());
    assert!(!s.disconnect());
    assert_eq!(s.state(), state(Phase::Disconnected, false, false));
    s.connect();
    assert!(!s.subscribed());
    assert!(!s.disconnect());
    assert_eq!(s.state(), state(Phase::Connecting, false, false));
    s.established(false);
    assert!(!s.established(true));
    assert!(!s.abandoned());
    assert_eq!(s.state(), state(Phase::Connected, false, false));
}

#[test]
fn an_abandoned_attempt_ends_disconnected() {
    let mut s = BrokerSession::new();
    s.connect();
    assert!(s.abandoned());
    assert_eq!(s.state(), state(Phase::Disconnected, false, false));
    assert!(s.connect().is_some());
}

#[test]
fn a_disconnect_clears_the_subscription() {
    let mut s = BrokerSession::new();
    s.connect();
    s.established(true);
    assert!(s.disconnect());
    assert_eq!(s.state(), state(Phase::Disconnected, false, false));
    assert!(!s.is_connected());
    assert_eq!(s.ensure_subscription(), None);
}

#[test]
fn delivery_levels_are_those_of_the_broker() {
    assert_eq!(Delivery::AtMostOnce.level(), 0);
    assert_eq!(Delivery::AtLeastOnce.level(), 1);
    assert_eq!(Delivery::ExactlyOnce.level(), 2);
}
