//! The inbound measurement and how a payload is decoded into one.

use vstd::prelude::*;
use vstd::string::StringExecFns;
use vstd::utf8::{decode_utf8, valid_utf8};
use crate::json::{json_object, members_view, parse_object, utf8_text, JsonValue, JsonValueView, Member, MemberView};

verus! {

/// The members that an inbound payload must have.
#[derive(Clone, Copy, Debug, PartialEq, Eq, Structural)]
pub enum Field {
    Room,
    Temperature,
    Humidity,
}

impl Field {
    /// The member's key in the payload.
    pub open spec fn key(self) -> Seq<char> {
        match self {
            Field::Room => "room"@,
            Field::Temperature => "temperature"@,
            Field::Humidity => "humidity"@,
        }
    }

    /// The member's key in the payload.
    pub fn name(self) -> (name: String)
        ensures
            name@ == self.key(),
    {
        match self {
            Field::Room => String::from_str("room"),
            Field::Temperature => String::from_str("temperature"),
            Field::Humidity => String::from_str("humidity"),
        }
    }
}

/// Why a payload is no measurement.
#[derive(Clone, Copy, Debug, PartialEq, Eq, Structural)]
pub enum DecodeError {
    /// The payload is not well-formed UTF-8.
    NotText,
    /// The text is not one JSON object.
    NotAnObject,
    /// The object has no member of this name.
    Missing(Field),
    /// The member of this name has a value of the wrong kind: `room` must be
    /// a string, `temperature` and `humidity` numbers.
    WrongType(Field),
    /// The room is the empty string, which names no place.
    EmptyRoom,
}

/// One reading of one room. The two numbers are carried as the bits of the
/// IEEE 754 doubles that the payload gave. A measurement that was decoded
/// from a payload names its room: the text is not empty.
#[derive(Clone, Debug, PartialEq, Eq)]
pub struct Measurement {
    pub room: String,
    pub temperature: u64,
    pub humidity: u64,
}

/// What a [`Measurement`] stands for in contracts.
pub struct MeasurementView {
    pub room: Seq<char>,
    pub temperature: u64,
    pub humidity: u64,
}

impl View for Measurement {
    type V = MeasurementView;

    open spec fn view(&self) -> MeasurementView {
        MeasurementView { room: self.room@, temperature: self.temperature, humidity: self.humidity }
    }
}

/// The view of a decoding result.
pub open spec fn decoded_view(r: Result<Measurement, DecodeError>) -> Result<
    MeasurementView,
    DecodeError,
> {
    match r {
        Ok(m) => Ok(m@),
        Err(e) => Err(e),
    }
}

/// The value of the first member named `key`, if there is one.
pub open spec fn lookup(members: Seq<MemberView>, key: Seq<char>) -> Option<JsonValueView>
    decreases members.len(),
{
    if members.len() == 0 {
        None
    } else if members[0].key == key {
        Some(members[0].value)
    } else {
        lookup(members.drop_first(), key)
    }
}

/// The text of the member `field`: it must be there and be a string.
pub open spec fn text_of(members: Seq<MemberView>, field: Field) -> Result<Seq<char>, DecodeError> {
    match lookup(members, field.key()) {
        None => Err(DecodeError::Missing(field)),
        Some(JsonValueView::Text(text)) => Ok(text),
        Some(_) => Err(DecodeError::WrongType(field)),
    }
}

/// The number of the member `field`: it must be there and be a number.
pub open spec fn number_of(members: Seq<MemberView>, field: Field) -> Result<u64, DecodeError> {
    match lookup(members, field.key()) {
        None => Err(DecodeError::Missing(field)),
        Some(JsonValueView::Number(bits)) => Ok(bits),
        Some(_) => Err(DecodeError::WrongType(field)),
    }
}

/// The room that an object's members name: the text of the member `room`,
/// which must not be empty.
pub open spec fn room_of(members: Seq<MemberView>) -> Result<Seq<char>, DecodeError> {
    match text_of(members, Field::Room) {
        Err(e) => Err(e),
        Ok(room) => if room.len() == 0 {
            Err(DecodeError::EmptyRoom)
        } else {
            Ok(room)
        },
    }
}

/// The measurement that an object's members denote. `room` is looked at
/// first, then `temperature`, then `humidity`; the first one that is
/// missing, of the wrong kind or empty decides the error. Other members are
/// ignored.
pub open spec fn measurement_of(members: Seq<MemberView>) -> Result<MeasurementView, DecodeError> {
    match room_of(members) {
        Err(e) => Err(e),
        Ok(room) => match number_of(members, Field::Temperature) {
            Err(e) => Err(e),
            Ok(temperature) => match number_of(members, Field::Humidity) {
                Err(e) => Err(e),
                Ok(humidity) => Ok(MeasurementView { room, temperature, humidity }),
            },
        },
    }
}

/// What a payload decodes to: it must be UTF-8 text, the text one JSON
/// object, and the object must hold the three members, the room not empty.
pub open spec fn decoded(payload: Seq<u8>) -> Result<MeasurementView, DecodeError> {
    if !valid_utf8(payload) {
        Err(DecodeError::NotText)
    } else {
        match json_object(decode_utf8(payload)) {
            None => Err(DecodeError::NotAnObject),
            Some(members) => measurement_of(members),
        }
    }
}

/// Finds the value of the first member named `key`.
pub fn find<'a>(members: &'a Vec<Member>, key: &String) -> (found: Option<&'a JsonValue>)
    ensures
        match found {
            Some(value) => lookup(members_view(members@), key@) == Some(value@),
            None => lookup(members_view(members@), key@) is None,
        },
{
    let ghost all = members_view(members@);
    let mut i: usize = 0;
    assert(all.skip(0) == all);
    while i < members.len()
        invariant
            i <= members.len(),
            all == members_view(members@),
            lookup(all, key@) == lookup(all.skip(i as int), key@),
        decreases members.len() - i,
    {
        assert(all.skip(i as int).drop_first() == all.skip(i as int + 1));
        if members[i].key == *key {
            return Some(&members[i].value);
        }
        i += 1;
    }
    None
}

/// Reads the text of the member `field`.
pub fn text_member(members: &Vec<Member>, field: Field) -> (r: Result<String, DecodeError>)
    ensures
        match r {
            Ok(text) => text_of(members_view(members@), field) == Ok::<Seq<char>, DecodeError>(text@),
            Err(e) => text_of(members_view(members@), field) == Err::<Seq<char>, DecodeError>(e),
        },
{
    let key = field.name();
    match find(members, &key) {
        None => Err(DecodeError::Missing(field)),
        Some(JsonValue::Text(text)) => Ok(text.clone()),
        Some(_) => Err(DecodeError::WrongType(field)),
    }
}

/// Reads the number of the member `field`.
pub fn number_member(members: &Vec<Member>, field: Field) -> (r: Result<u64, DecodeError>)
    ensures
        r == number_of(members_view(members@), field),
{
    let key = field.name();
    match find(members, &key) {
        None => Err(DecodeError::Missing(field)),
        Some(JsonValue::Number(bits)) => Ok(*bits),
        Some(_) => Err(DecodeError::WrongType(field)),
    }
}

impl Measurement {
    /// Builds the measurement that the members of a JSON object denote.
    pub fn from_members(members: &Vec<Member>) -> (r: Result<Measurement, DecodeError>)
        ensures
            decoded_view(r) == measurement_of(members_view(members@)),
    {
        let room = match text_member(members, Field::Room) {
            Ok(room) => room,
            Err(e) => { return Err(e); },
        };
        if room.as_str().is_empty() {
            return Err(DecodeError::EmptyRoom);
        }
        let temperature = match number_member(members, Field::Temperature) {
            Ok(bits) => bits,
            Err(e) => { return Err(e); },
        };
        let humidity = match number_member(members, Field::Humidity) {
            Ok(bits) => bits,
            Err(e) => { return Err(e); },
        };
        Ok(Measurement { room, temperature, humidity })
    }

    /// Decodes one inbound payload.
    ///
    /// The payload must be UTF-8 text that holds one JSON object with a
    /// member `room` that is a string and not empty, and members
    /// `temperature` and `humidity` that are numbers. The result depends on
    /// the payload alone.
    pub fn decode(payload: &[u8]) -> (r: Result<Measurement, DecodeError>)
        ensures
            decoded_view(r) == decoded(payload@),
    {
        let text = match utf8_text(payload) {
            Some(text) => text,
            None => { return Err(DecodeError::NotText); },
        };
        match parse_object(text) {
            None => Err(DecodeError::NotAnObject),
            Some(members) => Measurement::from_members(&members),
        }
    }
}

/// The place of the first member named `key`, for a list in which `lookup`
/// finds one.
pub open spec fn first_named(members: Seq<MemberView>, key: Seq<char>) -> int {
    choose|i: int|
        0 <= i < members.len() && members[i].key == key && forall|j: int|
            0 <= j < i ==> members[j].key != key
}

/// `lookup` finds nothing exactly when no member has the key, and else
/// gives the value of the first member that has it.
pub proof fn lookup_finds_the_first(members: Seq<MemberView>, key: Seq<char>)
    ensures
        lookup(members, key) is None <==> forall|i: int|
            0 <= i < members.len() ==> members[i].key != key,
        lookup(members, key) is Some ==> {
            let at = first_named(members, key);
            &&& 0 <= at < members.len()
            &&& members[at].key == key
            &&& lookup(members, key) == Some(members[at].value)
            &&& forall|j: int| 0 <= j < at ==> members[j].key != key
        },
    decreases members.len(),
{
    if members.len() > 0 && members[0].key != key {
        let rest = members.drop_first();
        lookup_finds_the_first(rest, key);
        if lookup(rest, key) is Some {
            let inner = first_named(rest, key);
            assert forall|j: int| 0 <= j < inner + 1 implies members[j].key != key by {
                if j > 0 {
                    assert(rest[j - 1].key != key);
                }
            }
            assert(members[inner + 1] == rest[inner]);
        } else {
            assert forall|i: int| 0 <= i < members.len() implies members[i].key != key by {
                if i > 0 {
                    assert(rest[i - 1].key != key);
                }
            }
        }
    }
}

/// A payload decodes to a measurement exactly when it is UTF-8 text of one
/// JSON object whose members `room`, `temperature` and `humidity` are there
/// and of the right kind, the room not empty; and the measurement then holds
/// what they hold.
pub proof fn decoded_measurement_holds_the_members(payload: Seq<u8>)
    ensures
        decoded(payload) is Ok <==> {
            &&& valid_utf8(payload)
            &&& json_object(decode_utf8(payload)) matches Some(members)
            &&& lookup(members, Field::Room.key()) matches Some(JsonValueView::Text(room))
            &&& room.len() > 0
            &&& lookup(members, Field::Temperature.key()) matches Some(JsonValueView::Number(_))
            &&& lookup(members, Field::Humidity.key()) matches Some(JsonValueView::Number(_))
        },
        decoded(payload) matches Ok(m) ==> {
            let members = json_object(decode_utf8(payload))->Some_0;
            &&& m.room.len() > 0
            &&& lookup(members, Field::Room.key()) == Some(JsonValueView::Text(m.room))
            &&& lookup(members, Field::Temperature.key()) == Some(
                JsonValueView::Number(m.temperature),
            )
            &&& lookup(members, Field::Humidity.key()) == Some(JsonValueView::Number(m.humidity))
        },
{
}

/// Decoding depends on the payload alone: whatever two runs of
/// [`Measurement::decode`] on one payload give, they give the same, be it
/// the same error or measurements that are equal field by field.
pub proof fn decoding_is_repeatable(
    payload: Seq<u8>,
    first: Result<Measurement, DecodeError>,
    second: Result<Measurement, DecodeError>,
)
    requires
        decoded_view(first) == decoded(payload),
        decoded_view(second) == decoded(payload),
    ensures
        decoded_view(first) == decoded_view(second),
        first matches Err(e) ==> second == Err::<Measurement, DecodeError>(e),
        first matches Ok(a) ==> second matches Ok(b) && a.room@ == b.room@ && a.temperature
            == b.temperature && a.humidity == b.humidity,
{
}

} // verus!
