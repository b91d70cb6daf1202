//! The store's write unit and how one is derived from a measurement.

use vstd::prelude::*;
use vstd::string::StringExecFns;
use crate::measurement::{Measurement, MeasurementView};

verus! {

/// A tag of a point: a key and a text.
#[derive(Clone, Debug, PartialEq, Eq)]
pub struct Tag {
    pub key: String,
    pub value: String,
}

/// A numeric field of a point: a key and the bits of an IEEE 754 double.
#[derive(Clone, Debug, PartialEq, Eq)]
pub struct NumberField {
    pub key: String,
    pub value: u64,
}

/// One timestamped, tagged record for the time-series store.
#[derive(Clone, Debug, PartialEq, Eq)]
pub struct Point {
    pub measurement: String,
    pub tags: Vec<Tag>,
    pub fields: Vec<NumberField>,
    /// Milliseconds since the Unix epoch.
    pub timestamp_ms: i64,
}

/// What a [`Point`] stands for in contracts: tags and fields as pairs of key
/// and value, in their order.
pub struct PointView {
    pub measurement: Seq<char>,
    pub tags: Seq<(Seq<char>, Seq<char>)>,
    pub fields: Seq<(Seq<char>, u64)>,
    pub timestamp_ms: i64,
}

impl View for Point {
    type V = PointView;

    open spec fn view(&self) -> PointView {
        PointView {
            measurement: self.measurement@,
            tags: self.tags@.map_values(|t: Tag| (t.key@, t.value@)),
            fields: self.fields@.map_values(|f: NumberField| (f.key@, f.value)),
            timestamp_ms: self.timestamp_ms,
        }
    }
}

/// The point of a measurement that was received at `received_at_ms`: named
/// `room_measurement`, tagged with the room, with the two readings as its
/// fields, stamped with the time of receipt.
pub open spec fn point_of(m: MeasurementView, received_at_ms: i64) -> PointView {
    PointView {
        measurement: "room_measurement"@,
        tags: seq![("room"@, m.room)],
        fields: seq![("temperature"@, m.temperature), ("humidity"@, m.humidity)],
        timestamp_ms: received_at_ms,
    }
}

/// Derives the point of a measurement. `received_at_ms` is the wall-clock
/// time at which the message arrived, in milliseconds since the Unix epoch.
pub fn derive_point(m: &Measurement, received_at_ms: i64) -> (p: Point)
    ensures
        p@ == point_of(m@, received_at_ms),
{
    let mut tags: Vec<Tag> = Vec::new();
    tags.push(Tag { key: String::from_str("room"), value: m.room.clone() });
    let mut fields: Vec<NumberField> = Vec::new();
    fields.push(NumberField { key: String::from_str("temperature"), value: m.temperature });
    fields.push(NumberField { key: String::from_str("humidity"), value: m.humidity });
    let p = Point {
        measurement: String::from_str("room_measurement"),
        tags,
        fields,
        timestamp_ms: received_at_ms,
    };
    assert(p@.tags =~= point_of(m@, received_at_ms).tags);
    assert(p@.fields =~= point_of(m@, received_at_ms).fields);
    p
}

} // verus!
