use sensor_relay::measurement::{DecodeError, Field, Measurement};
use sensor_relay::point::derive_point;
use sensor_relay::reconnect::Attempt;
use sensor_relay::relay::{Action, Event, ExitReason, Fault, Relay, RelayConfig, Stage, Step};
use sensor_relay::sensor::{to_measurement, RawReading};

fn started() -> Relay {
    let mut relay = Relay::new(RelayConfig::default()).unwrap();
    relay.step(Event::Start).unwrap();
    relay.step(Event::Connected { session_present: false }).unwrap();
    relay.step(Event::Subscribed).unwrap();
    relay
}

fn message(text: &str, received_at_ms: i64) -> Event {
    Event::Message { payload: text.as_bytes().to_vec(), received_at_ms }
}

#[test]
fn a_raw_reading_becomes_a_measurement() {
    let m = to_measurement(RawReading { temperature: 212, humidity: 655 });
    let fahrenheit = m.fahrenheit_hundredths as f32 / 100.0;
    let percent = m.humidity_tenths as f32 / 10.0;
    assert!((fahrenheit - (212.0f32 / 10.0 * 1.8 + 32.0)).abs() < 1e-4);
    assert!((fahrenheit - 70.16).abs() < 1e-4);
    assert!((percent - 65.5).abs() < 1e-4);
}

#[test]
fn a_kitchen_payload_becomes_a_kitchen_point() {
    let m = Measurement::decode(br#"{"room":"kitchen","temperature":21.5,"humidity":40.0}"#).unwrap();
    let p = derive_point(&m, 1_234);
    assert_eq!(p.measurement, "room_measurement");
    assert_eq!(p.tags.len(), 1);
    assert_eq!((p.tags[0].key.as_str(), p.tags[0].value.as_str()), ("room", "kitchen"));
    assert_eq!(p.fields.len(), 2);
    assert_eq!((p.fields[0].key.as_str(), f64::from_bits(p.fields[0].value)), ("temperature", 21.5));
    assert_eq!((p.fields[1].key.as_str(), f64::from_bits(p.fields[1].value)), ("humidity", 40.0));
    assert_eq!(p.timestamp_ms, 1_234);
}

#[test]
fn a_payload_of_the_wrong_type_fails_for_that_message_only() {
    let mut relay = started();
    let bad = r#"{"room":"kitchen","temperature":"hot","humidity":40.0}"#;
    assert_eq!(Measurement::decode(bad.as_bytes()), Err(DecodeError::WrongType(Field::Temperature)));
    assert_eq!(
        relay.step(message(bad, 10)),
        Some(Step {
            action: Action::Receive,
            fault: Some(Fault::Decode(DecodeError::WrongType(Field::Temperature))),
        })
    );
    assert_eq!(relay.state().stage, Stage::Receiving);
    let good = r#"{"room":"kitchen","temperature":21.5,"humidity":40.0}"#;
    match relay.step(message(good, 11)) {
        Some(Step { action: Action::Write(point), fault: None }) => {
            assert_eq!(point, derive_point(&Measurement::decode(good.as_bytes()).unwrap(), 11));
        }
        other => panic!("the next message was not taken up: {:?}", other),
    }
    assert_eq!(relay.state().stage, Stage::Writing);
}

#[test]
fn a_reconnect_that_succeeds_on_the_fourth_try_resumes() {
    let mut relay = started();
    let lost = relay.step(Event::EndOfData { still_connected: false }).unwrap();
    assert_eq!(lost.action, Action::Reconnect(Attempt { number: 1, after_ms: 5000 }));
    assert_eq!(lost.fault, Some(Fault::ConnectionLost));
    for number in 2..=4u32 {
        assert_eq!(
            relay.step(Event::ConnectFailed),
            Some(Step { action: Action::Reconnect(Attempt { number, after_ms: 5000 }), fault: None })
        );
        assert!(!relay.is_stopped());
    }
    assert_eq!(
        relay.step(Event::Connected { session_present: true }),
        Some(Step { action: Action::Receive, fault: None })
    );
    assert_eq!(relay.state().stage, Stage::Receiving);
    assert!(!relay.is_stopped());
    let good = r#"{"room":"kitchen","temperature":21.5,"humidity":40.0}"#;
    assert!(matches!(relay.step(message(good, 1)), Some(Step { action: Action::Write(_), fault: None })));
}

#[test]
fn twelve_failed_reconnects_end_the_main_loop() {
    let mut relay = started();
    relay.step(Event::EndOfData { still_connected: false }).unwrap();
    for number in 2..=12u32 {
        assert_eq!(
            relay.step(Event::ConnectFailed),
            Some(Step { action: Action::Reconnect(Attempt { number, after_ms: 5000 }), fault: None })
        );
    }
    assert_eq!(
        relay.step(Event::ConnectFailed),
        Some(Step { action: Action::Exit(ExitReason::ReconnectExhausted), fault: None })
    );
    assert!(relay.is_stopped());
    assert_eq!(relay.step(Event::ConnectFailed), None);
}
