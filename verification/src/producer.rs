//! The producer's cycle: sample, publish, rest, and the same again whatever
//! went wrong.
//!
//! Like the relay, the producer does no input or output itself. It is told
//! what happened and answers with what is to be done next.

use vstd::prelude::*;
use crate::sensor::{measurement_of, to_measurement, RawReading, SensorMeasurement};

verus! {

/// Why a cycle published nothing.
#[derive(Clone, Copy, Debug, PartialEq, Eq, Structural)]
pub enum CycleFault {
    /// The sensor gave no reading.
    SensorRead,
    /// The broker did not take the message.
    Publish,
}

/// What the producer is waiting for.
#[derive(Clone, Copy, Debug, PartialEq, Eq, Structural)]
pub enum ProducerStage {
    /// The next cycle is not due yet.
    Resting,
    /// The sensor is being read.
    Sampling,
    /// This measurement is being published.
    Publishing(SensorMeasurement),
}

/// What happened.
#[derive(Clone, Copy, Debug, PartialEq, Eq, Structural)]
pub enum ProducerEvent {
    /// A cycle is due.
    Tick,
    /// The sensor gave a reading.
    Sampled(RawReading),
    /// The sensor gave none.
    SampleFailed,
    /// The broker acknowledged the message.
    Published,
    /// The broker did not take the message.
    PublishFailed,
}

/// What is to be done next.
#[derive(Clone, Copy, Debug, PartialEq, Eq, Structural)]
pub enum ProducerAction {
    /// Read the sensor.
    Sample,
    /// Publish this measurement.
    Publish(SensorMeasurement),
    /// Wait for the next cycle.
    Rest { seconds: u64 },
}

/// The producer's answer to an event.
#[derive(Clone, Copy, Debug, PartialEq, Eq, Structural)]
pub struct ProducerStep {
    pub action: ProducerAction,
    /// What went wrong in this cycle and is to be reported, if anything.
    pub fault: Option<CycleFault>,
    /// The measurement that this cycle published, if it did.
    pub published: Option<SensorMeasurement>,
}

/// The end of a cycle: rest for the interval, whatever the cycle came to.
pub open spec fn cycle_end(
    interval_seconds: u64,
    fault: Option<CycleFault>,
    published: Option<SensorMeasurement>,
) -> (ProducerStage, ProducerStep) {
    (
        ProducerStage::Resting,
        ProducerStep { action: ProducerAction::Rest { seconds: interval_seconds }, fault, published },
    )
}

/// The producer's answer to `event` in `stage`, and the stage it is in
/// then. `None` where the event is not one that the stage waits for.
pub open spec fn producer_next(interval_seconds: u64, stage: ProducerStage, event: ProducerEvent) -> Option<
    (ProducerStage, ProducerStep),
> {
    match (stage, event) {
        (ProducerStage::Resting, ProducerEvent::Tick) => Some(
            (
                ProducerStage::Sampling,
                ProducerStep { action: ProducerAction::Sample, fault: None, published: None },
            ),
        ),
        (ProducerStage::Sampling, ProducerEvent::Sampled(raw)) => Some(
            (
                ProducerStage::Publishing(measurement_of(raw)),
                ProducerStep {
                    action: ProducerAction::Publish(measurement_of(raw)),
                    fault: None,
                    published: None,
                },
            ),
        ),
        (ProducerStage::Sampling, ProducerEvent::SampleFailed) => Some(
            cycle_end(interval_seconds, Some(CycleFault::SensorRead), None),
        ),
        (ProducerStage::Publishing(m), ProducerEvent::Published) => Some(
            cycle_end(interval_seconds, None, Some(m)),
        ),
        (ProducerStage::Publishing(_), ProducerEvent::PublishFailed) => Some(
            cycle_end(interval_seconds, Some(CycleFault::Publish), None),
        ),
        _ => None,
    }
}

/// The producer's cycle.
#[derive(Clone, Copy, Debug, PartialEq, Eq, Structural)]
pub struct Producer {
    /// The time between two cycles, in seconds.
    pub interval_seconds: u64,
    pub stage: ProducerStage,
}

impl Producer {
    /// A producer that rests until its first cycle is due.
    pub fn new(interval_seconds: u64) -> (p: Producer)
        ensures
            p == (Producer { interval_seconds, stage: ProducerStage::Resting }),
    {
        Producer { interval_seconds, stage: ProducerStage::Resting }
    }

    /// Takes in one event and answers with what is to be done next.
    ///
    /// An event that the stage does not wait for is refused: the answer is
    /// `None` and nothing changes.
    pub fn step(&mut self, event: ProducerEvent) -> (step: Option<ProducerStep>)
        ensures
            final(self).interval_seconds == old(self).interval_seconds,
            match producer_next(old(self).interval_seconds, old(self).stage, event) {
                Some((stage, expected)) => final(self).stage == stage && step == Some(expected),
                None => final(self).stage == old(self).stage && step is None,
            },
    {
        let rest = ProducerAction::Rest { seconds: self.interval_seconds };
        match (self.stage, event) {
            (ProducerStage::Resting, ProducerEvent::Tick) => {
                self.stage = ProducerStage::Sampling;
                Some(ProducerStep { action: ProducerAction::Sample, fault: None, published: None })
            },
            (ProducerStage::Sampling, ProducerEvent::Sampled(raw)) => {
                let m = to_measurement(raw);
                self.stage = ProducerStage::Publishing(m);
                Some(ProducerStep { action: ProducerAction::Publish(m), fault: None, published: None })
            },
            (ProducerStage::Sampling, ProducerEvent::SampleFailed) => {
                self.stage = ProducerStage::Resting;
                Some(ProducerStep { action: rest, fault: Some(CycleFault::SensorRead), published: None })
            },
            (ProducerStage::Publishing(m), ProducerEvent::Published) => {
                self.stage = ProducerStage::Resting;
                Some(ProducerStep { action: rest, fault: None, published: Some(m) })
            },
            (ProducerStage::Publishing(_), ProducerEvent::PublishFailed) => {
                self.stage = ProducerStage::Resting;
                Some(ProducerStep { action: rest, fault: Some(CycleFault::Publish), published: None })
            },
            _ => None,
        }
    }
}

/// No failure ends the producer or changes its pace: a cycle in which the
/// sensor or the broker fails ends like one that published, with a rest of
/// the configured interval, and after it the next cycle is taken up.
pub proof fn failures_stay_in_their_cycle(interval_seconds: u64, m: SensorMeasurement)
    ensures
        producer_next(interval_seconds, ProducerStage::Sampling, ProducerEvent::SampleFailed)
            == Some(cycle_end(interval_seconds, Some(CycleFault::SensorRead), None)),
        producer_next(interval_seconds, ProducerStage::Publishing(m), ProducerEvent::PublishFailed)
            == Some(cycle_end(interval_seconds, Some(CycleFault::Publish), None)),
        producer_next(interval_seconds, ProducerStage::Publishing(m), ProducerEvent::Published)
            == Some(cycle_end(interval_seconds, None, Some(m))),
        producer_next(interval_seconds, ProducerStage::Resting, ProducerEvent::Tick) is Some,
{
}

/// Each cycle reads the sensor once and publishes at most one message, the
/// measurement of that reading.
pub proof fn one_message_per_reading(
    interval_seconds: u64,
    stage: ProducerStage,
    event: ProducerEvent,
)
    ensures
        producer_next(interval_seconds, stage, event) matches Some((_, step)) ==> {
            &&& step.action matches ProducerAction::Publish(m) ==> {
                &&& stage is Sampling
                &&& event matches ProducerEvent::Sampled(raw)
                &&& m == measurement_of(raw)
            }
            &&& step.action is Sample ==> stage is Resting && event is Tick
        },
{
}

} // verus!
