//! JSON-like structured values.
//!
//! `JsonValue` is the tree the library builds itself: request payloads, and
//! bodies re-encoded from CSV or XML. JSON parsed from a response body stays
//! a `serde_json::Value`; the trusted items around `serde_json` live here too.

use vstd::prelude::*;

verus! {

/// A JSON-like value built by the library: null, booleans, integers,
/// strings, arrays, and objects kept as ordered key/value pairs.
#[derive(Debug)]
pub enum JsonValue {
    Null,
    Bool(bool),
    UInt(u64),
    Int(i64),
    Str(String),
    Arr(Vec<JsonValue>),
    Obj(Vec<(String, JsonValue)>),
}

/// The mathematical model of a `JsonValue`: strings become character
/// sequences, vectors become sequences.
pub enum JsonData {
    Null,
    Bool(bool),
    UInt(u64),
    Int(i64),
    Str(Seq<char>),
    Arr(Seq<JsonData>),
    Obj(Seq<(Seq<char>, JsonData)>),
}

impl JsonValue {
    /// The model of this value.
    pub open spec fn model(self) -> JsonData
        decreases self,
    {
        match self {
            JsonValue::Null => JsonData::Null,
            JsonValue::Bool(b) => JsonData::Bool(b),
            JsonValue::UInt(n) => JsonData::UInt(n),
            JsonValue::Int(n) => JsonData::Int(n),
            JsonValue::Str(s) => JsonData::Str(s@),
            JsonValue::Arr(items) => JsonData::Arr(
                Seq::new(
                    items@.len(),
                    |i: int|
                        if 0 <= i < items.len() {
                            items[i].model()
                        } else {
                            JsonData::Null
                        },
                ),
            ),
            JsonValue::Obj(fields) => JsonData::Obj(
                Seq::new(
                    fields@.len(),
                    |i: int|
                        if 0 <= i < fields.len() {
                            (fields[i].0@, fields[i].1.model())
                        } else {
                            (Seq::empty(), JsonData::Null)
                        },
                ),
            ),
        }
    }
}

/// `serde_json::Value`, declared so that parsed response bodies can be
/// carried through signatures and fields; the library never looks inside.
#[verifier::external_type_specification]
#[verifier::external_body]
pub struct ExSerdeValue(serde_json::Value);

/// What `serde_json::from_slice::<serde_json::Value>` returns on a byte
/// sequence: `Some` with the parsed value exactly when the bytes are a valid
/// JSON document, `None` otherwise. The result depends on the bytes alone.
pub uninterp spec fn json_parse(b: Seq<u8>) -> Option<serde_json::Value>;

/// Relies on `serde_json::from_slice::<serde_json::Value>`: parses a whole
/// byte slice as one JSON document; the outcome is a function of the bytes.
#[verifier::external_body]
pub(crate) fn parse_json_bytes(b: &[u8]) -> (r: Option<serde_json::Value>)
    ensures
        r == json_parse(b@),
{
    serde_json::from_slice::<serde_json::Value>(b).ok()
}

/// What `String::from_utf8_lossy` makes of a byte sequence: the text it
/// decodes, invalid sequences replaced. The result depends on the bytes
/// alone.
pub uninterp spec fn utf8_lossy_of(b: Seq<u8>) -> Seq<char>;

/// Relies on `String::from_utf8_lossy`: decodes bytes as UTF-8 text,
/// replacing invalid sequences, so no body is ever lost; an empty input
/// gives an empty string.
#[verifier::external_body]
pub(crate) fn utf8_lossy(b: &[u8]) -> (r: String)
    ensures
        r@ == utf8_lossy_of(b@),
        b@.len() == 0 ==> r@.len() == 0,
{
    String::from_utf8_lossy(b).into_owned()
}

} // verus!
