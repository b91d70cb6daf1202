use sensor_relay::measurement::Measurement;
use sensor_relay::point::{derive_point, NumberField, Point, Tag};

#[test]
fn a_point_keeps_room_and_readings() {
    let m = Measurement {
        room: String::from("kitchen"),
        temperature: 21.5f64.to_bits(),
        humidity: 40.0f64.to_bits(),
    };
    let p = derive_point(&m, 1_700_000_000_123);
    assert_eq!(
        p,
        Point {
            measurement: String::from("room_measurement"),
            tags: vec![Tag { key: String::from("room"), value: String::from("kitchen") }],
            fields: vec![
                NumberField { key: String::from("temperature"), value: 21.5f64.to_bits() },
                NumberField { key: String::from("humidity"), value: 40.0f64.to_bits() },
            ],
            timestamp_ms: 1_700_000_000_123,
        }
    );
    assert_eq!(f64::from_bits(p.fields[0].value), 21.5);
    assert_eq!(f64::from_bits(p.fields[1].value), 40.0);
}

#[test]
fn a_point_is_stamped_with_the_time_of_receipt() {
    let m = Measurement { room: String::from("r"), temperature: 0, humidity: 0 };
    assert_eq!(derive_point(&m, 0).timestamp_ms, 0);
    assert_eq!(derive_point(&m, -1).timestamp_ms, -1);
    assert_eq!(derive_point(&m, i64::MAX).timestamp_ms, i64::MAX);
}

#[test]
fn the_measurement_is_left_as_it_was() {
    let m = Measurement { room: String::from("cellar"), temperature: 1, humidity: 2 };
    let before = m.clone();
    let _ = derive_point(&m, 5);
    assert_eq!(m, before);
}
