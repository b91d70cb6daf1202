use sensor_relay::sensor::{to_measurement, RawReading, SensorMeasurement};
use sensor_relay::transport::{publication, Delivery};

fn fahrenheit(m: &SensorMeasurement) -> f64 {
    m.fahrenheit_hundredths as f64 / 100.0
}

fn percent(m: &SensorMeasurement) -> f64 {
    m.humidity_tenths as f64 / 10.0
}

#[test]
fn raw_reading_212_655_is_converted() {
    let m = to_measurement(RawReading { temperature: 212, humidity: 655 });
    assert_eq!(m, SensorMeasurement { fahrenheit_hundredths: 7016, humidity_tenths: 655 });
    assert!((fahrenheit(&m) - (212.0 / 10.0 * 1.8 + 32.0)).abs() < 1e-9);
    assert!((percent(&m) - 65.5).abs() < 1e-9);
}

#[test]
fn freezing_point_is_32_fahrenheit() {
    let m = to_measurement(RawReading { temperature: 0, humidity: 0 });
    assert_eq!(m.fahrenheit_hundredths, 3200);
    assert_eq!(m.humidity_tenths, 0);
}

#[test]
fn boiling_point_is_212_fahrenheit() {
    let m = to_measurement(RawReading { temperature: 1000, humidity: 1000 });
    assert_eq!(m.fahrenheit_hundredths, 21200);
    assert_eq!(m.humidity_tenths, 1000);
}

#[test]
fn minus_forty_is_the_same_on_both_scales() {
    let m = to_measurement(RawReading { temperature: -400, humidity: 123 });
    assert_eq!(m.fahrenheit_hundredths, -4000);
}

#[test]
fn conversion_follows_the_formula_on_every_reading() {
    let mut t = i16::MIN;
    loop {
        let m = to_measurement(RawReading { temperature: t, humidity: 500 });
        assert_eq!(m.fahrenheit_hundredths, 18 * t as i32 + 3200);
        let expected = t as f64 / 10.0 * 1.8 + 32.0;
        assert!((fahrenheit(&m) - expected).abs() < 1e-6);
        if t == i16::MAX {
            break;
        }
        t += 1;
    }
}

#[test]
fn humidity_is_kept_at_the_extremes() {
    assert_eq!(to_measurement(RawReading { temperature: 1, humidity: u16::MAX }).humidity_tenths, u16::MAX);
    assert_eq!(to_measurement(RawReading { temperature: i16::MAX, humidity: 1 }).fahrenheit_hundredths, 593006);
    assert_eq!(to_measurement(RawReading { temperature: i16::MIN, humidity: 1 }).fahrenheit_hundredths, -586624);
}

#[test]
fn a_sample_is_published_on_the_sensors_topic_at_least_once() {
    let message = publication(String::from("{\"temperature\":70.16,\"humidity\":65.5}"));
    assert_eq!(message.topic, "home/sensors");
    assert_eq!(message.payload, "{\"temperature\":70.16,\"humidity\":65.5}");
    assert_eq!(message.delivery, Delivery::AtLeastOnce);
    assert_eq!(message.delivery.level(), 1);
}
