//! Environmental readings on their way from a sensing device to a
//! time-series store, with a publish/subscribe broker in between.
//!
//! The producer side turns a raw sensor sample into the published units.
//! The relay side decodes inbound payloads, derives store points from them,
//! and decides, event by event, what the relay does next: connect,
//! subscribe, receive, write, reconnect or stop.

pub mod json;
pub mod measurement;
pub mod point;
pub mod producer;
pub mod reconnect;
pub mod relay;
pub mod sensor;
pub mod session;
pub mod transport;
