//! What the producer and the relay ask of the broker transport, as plain
//! values: the options to connect with, the subscription, a publication.

use vstd::prelude::*;
use vstd::string::StringExecFns;

verus! {

/// How sure the delivery of a message is to be.
#[derive(Clone, Copy, Debug, PartialEq, Eq, Structural)]
pub enum Delivery {
    AtMostOnce,
    AtLeastOnce,
    ExactlyOnce,
}

impl Delivery {
    /// The quality-of-service level that the broker knows this by.
    pub open spec fn spec_level(self) -> u8 {
        match self {
            Delivery::AtMostOnce => 0,
            Delivery::AtLeastOnce => 1,
            Delivery::ExactlyOnce => 2,
        }
    }

    /// The quality-of-service level that the broker knows this by.
    #[verifier::when_used_as_spec(spec_level)]
    pub fn level(self) -> (level: u8)
        ensures
            level == self.spec_level(),
    {
        match self {
            Delivery::AtMostOnce => 0,
            Delivery::AtLeastOnce => 1,
            Delivery::ExactlyOnce => 2,
        }
    }
}

/// What the relay asks for when it connects.
#[derive(Clone, Debug, PartialEq, Eq)]
pub struct ConnectOptions {
    pub client_id: String,
    /// The major revision of the protocol.
    pub protocol_version: u32,
    /// Whether the broker is to forget an earlier session of this client.
    pub clean_session: bool,
    /// The topic and text of the message that the broker delivers for the
    /// relay if the relay goes away without disconnecting.
    pub will_topic: String,
    pub will_payload: String,
    pub will_delivery: Delivery,
}

/// What [`ConnectOptions`] stand for in contracts.
pub struct ConnectOptionsView {
    pub client_id: Seq<char>,
    pub protocol_version: u32,
    pub clean_session: bool,
    pub will_topic: Seq<char>,
    pub will_payload: Seq<char>,
    pub will_delivery: Delivery,
}

impl View for ConnectOptions {
    type V = ConnectOptionsView;

    open spec fn view(&self) -> ConnectOptionsView {
        ConnectOptionsView {
            client_id: self.client_id@,
            protocol_version: self.protocol_version,
            clean_session: self.clean_session,
            will_topic: self.will_topic@,
            will_payload: self.will_payload@,
            will_delivery: self.will_delivery,
        }
    }
}

/// The relay's connect options: a fixed client identifier, protocol
/// revision 5, a session that persists, and a last will on the topic `lwt`.
pub open spec fn relay_connect_options() -> ConnectOptionsView {
    ConnectOptionsView {
        client_id: "sensor-aggregator"@,
        protocol_version: 5,
        clean_session: false,
        will_topic: "lwt"@,
        will_payload: "Sync consumer v5 lost connection"@,
        will_delivery: Delivery::AtMostOnce,
    }
}

/// A request to subscribe.
#[derive(Clone, Debug, PartialEq, Eq)]
pub struct SubscribeRequest {
    pub topic: String,
    pub delivery: Delivery,
    /// The number by which inbound messages are matched to this
    /// subscription.
    pub subscription_id: i32,
}

/// What a [`SubscribeRequest`] stands for in contracts.
pub struct SubscribeRequestView {
    pub topic: Seq<char>,
    pub delivery: Delivery,
    pub subscription_id: i32,
}

impl View for SubscribeRequest {
    type V = SubscribeRequestView;

    open spec fn view(&self) -> SubscribeRequestView {
        SubscribeRequestView {
            topic: self.topic@,
            delivery: self.delivery,
            subscription_id: self.subscription_id,
        }
    }
}

/// The relay's one subscription: the inbound topic, delivered at least
/// once, under the identifier 1.
pub open spec fn relay_subscription() -> SubscribeRequestView {
    SubscribeRequestView {
        topic: "home/sensors"@,
        delivery: Delivery::AtLeastOnce,
        subscription_id: 1,
    }
}

/// Builds the relay's connect options.
pub fn connect_options() -> (options: ConnectOptions)
    ensures
        options@ == relay_connect_options(),
{
    ConnectOptions {
        client_id: String::from_str("sensor-aggregator"),
        protocol_version: 5,
        clean_session: false,
        will_topic: String::from_str("lwt"),
        will_payload: String::from_str("Sync consumer v5 lost connection"),
        will_delivery: Delivery::AtMostOnce,
    }
}

/// Builds the request for the relay's one subscription.
pub fn subscription() -> (request: SubscribeRequest)
    ensures
        request@ == relay_subscription(),
{
    SubscribeRequest {
        topic: String::from_str("home/sensors"),
        delivery: Delivery::AtLeastOnce,
        subscription_id: 1,
    }
}

/// A message to publish.
#[derive(Clone, Debug, PartialEq, Eq)]
pub struct Publication {
    pub topic: String,
    pub payload: String,
    pub delivery: Delivery,
}

/// What a [`Publication`] stands for in contracts.
pub struct PublicationView {
    pub topic: Seq<char>,
    pub payload: Seq<char>,
    pub delivery: Delivery,
}

impl View for Publication {
    type V = PublicationView;

    open spec fn view(&self) -> PublicationView {
        PublicationView { topic: self.topic@, payload: self.payload@, delivery: self.delivery }
    }
}

/// The publication of one sample: the payload as it is, on the sensors'
/// topic, delivered at least once.
pub open spec fn sample_publication(payload: Seq<char>) -> PublicationView {
    PublicationView { topic: "home/sensors"@, payload, delivery: Delivery::AtLeastOnce }
}

/// Frames the payload of one sample for publishing.
pub fn publication(payload: String) -> (message: Publication)
    ensures
        message@ == sample_publication(payload@),
{
    Publication {
        topic: String::from_str("home/sensors"),
        payload,
        delivery: Delivery::AtLeastOnce,
    }
}

} // verus!
