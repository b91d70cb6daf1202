use sensor_relay::producer::{
    CycleFault, Producer, ProducerAction, ProducerEvent, ProducerStage, ProducerStep,
};
use sensor_relay::sensor::{RawReading, SensorMeasurement};

const RAW: RawReading = RawReading { temperature: 212, humidity: 655 };
const MEASURED: SensorMeasurement = SensorMeasurement { fahrenheit_hundredths: 7016, humidity_tenths: 655 };

fn rest(seconds: u64, fault: Option<CycleFault>, published: Option<SensorMeasurement>) -> Option<ProducerStep> {
    Some(ProducerStep { action: ProducerAction::Rest { seconds }, fault, published })
}

#[test]
fn a_new_producer_rests() {
    assert_eq!(Producer::new(5), Producer { interval_seconds: 5, stage: ProducerStage::Resting });
}

#[test]
fn a_cycle_samples_publishes_and_rests() {
    let mut p = Producer::new(5);
    assert_eq!(
        p.step(ProducerEvent::Tick),
        Some(ProducerStep { action: ProducerAction::Sample, fault: None, published: None })
    );
    assert_eq!(p.stage, ProducerStage::Sampling);
    assert_eq!(
        p.step(ProducerEvent::Sampled(RAW)),
        Some(ProducerStep { action: ProducerAction::Publish(MEASURED), fault: None, published: None })
    );
    assert_eq!(p.stage, ProducerStage::Publishing(MEASURED));
    assert_eq!(p.step(ProducerEvent::Published), rest(5, None, Some(MEASURED)));
    assert_eq!(p.stage, ProducerStage::Resting);
}

#[test]
fn a_failed_reading_is_reported_and_the_next_cycle_runs() {
    let mut p = Producer::new(7);
    p.step(ProducerEvent::Tick);
    assert_eq!(p.step(ProducerEvent::SampleFailed), rest(7, Some(CycleFault::SensorRead), None));
    assert_eq!(p.stage, ProducerStage::Resting);
    assert!(p.step(ProducerEvent::Tick).is_some());
    assert!(p.step(ProducerEvent::Sampled(RAW)).is_some());
    assert_eq!(p.step(ProducerEvent::Published), rest(7, None, Some(MEASURED)));
}

#[test]
fn a_failed_publish_is_reported_and_the_next_cycle_runs() {
    let mut p = Producer::new(1);
    p.step(ProducerEvent::Tick);
    p.step(ProducerEvent::Sampled(RAW));
    assert_eq!(p.step(ProducerEvent::PublishFailed), rest(1, Some(CycleFault::Publish), None));
    assert_eq!(
        p.step(ProducerEvent::Tick),
        Some(ProducerStep { action: ProducerAction::Sample, fault: None, published: None })
    );
}

#[test]
fn failures_without_end_never_end_the_producer() {
    let mut p = Producer::new(3);
    for round in 0..1000 {
        assert!(p.step(ProducerEvent::Tick).is_some());
        if round % 2 == 0 {
            assert_eq!(p.step(ProducerEvent::SampleFailed), rest(3, Some(CycleFault::SensorRead), None));
        } else {
            assert!(p.step(ProducerEvent::Sampled(RAW)).is_some());
            assert_eq!(p.step(ProducerEvent::PublishFailed), rest(3, Some(CycleFault::Publish), None));
        }
        assert_eq!(p.interval_seconds, 3);
    }
}

#[test]
fn producer_events_out_of_place_are_refused() {
    let mut p = Producer::new(5);
    for event in [
        ProducerEvent::Sampled(RAW),
        ProducerEvent::SampleFailed,
        ProducerEvent::Published,
        ProducerEvent::PublishFailed,
    ] {
        assert_eq!(p.step(event), None);
        assert_eq!(p.stage, ProducerStage::Resting);
    }
    p.step(ProducerEvent::Tick);
    for event in [ProducerEvent::Tick, ProducerEvent::Published, ProducerEvent::PublishFailed] {
        assert_eq!(p.step(event), None);
        assert_eq!(p.stage, ProducerStage::Sampling);
    }
    p.step(ProducerEvent::Sampled(RAW));
    for event in [ProducerEvent::Tick, ProducerEvent::Sampled(RAW), ProducerEvent::SampleFailed] {
        assert_eq!(p.step(event), None);
        assert_eq!(p.stage, ProducerStage::Publishing(MEASURED));
    }
}
