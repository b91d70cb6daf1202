//! The members of a JSON object, as plain values.
//!
//! Parsing is done by `serde_json`; what it finds is handed on in the types
//! of this module, which the decoding logic reads.

use vstd::prelude::*;

verus! {

/// The value of one member of a JSON object, as far as decoding reads it.
///
/// A number is carried as the bit pattern of the IEEE 754 double that the
/// parser read; nothing here does arithmetic on it.
#[derive(Clone, Debug, PartialEq, Eq)]
pub enum JsonValue {
    /// A JSON string.
    Text(String),
    /// A JSON number, as the bits of its double.
    Number(u64),
    /// `null`, a boolean, an array or an object.
    Other,
}

/// What a [`JsonValue`] stands for in contracts.
pub enum JsonValueView {
    Text(Seq<char>),
    Number(u64),
    Other,
}

impl View for JsonValue {
    type V = JsonValueView;

    open spec fn view(&self) -> JsonValueView {
        match self {
            JsonValue::Text(s) => JsonValueView::Text(s@),
            JsonValue::Number(bits) => JsonValueView::Number(*bits),
            JsonValue::Other => JsonValueView::Other,
        }
    }
}

/// One member of a JSON object.
#[derive(Clone, Debug, PartialEq, Eq)]
pub struct Member {
    pub key: String,
    pub value: JsonValue,
}

/// What a [`Member`] stands for in contracts.
pub struct MemberView {
    pub key: Seq<char>,
    pub value: JsonValueView,
}

impl View for Member {
    type V = MemberView;

    open spec fn view(&self) -> MemberView {
        MemberView { key: self.key@, value: self.value@ }
    }
}

/// The views of a list of members, in the same order.
pub open spec fn members_view(members: Seq<Member>) -> Seq<MemberView> {
    members.map_values(|m: Member| m@)
}

/// The members that `serde_json` reads from `text`, in the order in which
/// its map hands them out: `Some` when `text` is one JSON object, `None`
/// when it is anything else or no JSON at all.
pub uninterp spec fn json_object(text: Seq<char>) -> Option<Seq<MemberView>>;

/// Parses `text` with `serde_json::from_str` into a `serde_json::Value` and,
/// where that is an object, hands out the members of its map one for one,
/// in the map's order. A member for which `Value::as_f64` gives a number
/// keeps that number's bits, a string member keeps its text, and any other
/// member is marked as such.
///
/// Not proved: that the result is what [`json_object`] names for this text,
/// which is to say that it depends on the text alone.
#[verifier::external_body]
pub(crate) fn parse_object(text: &str) -> (members: Option<Vec<Member>>)
    ensures
        match members {
            Some(found) => json_object(text@) == Some(members_view(found@)),
            None => json_object(text@) is None,
        },
{
    match serde_json::from_str::<serde_json::Value>(text) {
        Ok(serde_json::Value::Object(map)) => Some(
            map.into_iter().map(|(key, value)| Member {
                key,
                value: match (value.as_f64(), value) {
                    (Some(number), _) => JsonValue::Number(number.to_bits()),
                    (None, serde_json::Value::String(text)) => JsonValue::Text(text),
                    (None, _) => JsonValue::Other,
                },
            }).collect(),
        ),
        _ => None,
    }
}

/// Calls `std::str::from_utf8`.
///
/// Not proved: that it gives the text that `bytes` encode where they are
/// well-formed UTF-8, and `None` where they are not.
#[verifier::external_body]
pub(crate) fn utf8_text(bytes: &[u8]) -> (text: Option<&str>)
    ensures
        text is Some <==> vstd::utf8::valid_utf8(bytes@),
        text matches Some(s) ==> s@ == vstd::utf8::decode_utf8(bytes@),
{
    std::str::from_utf8(bytes).ok()
}

} // verus!
