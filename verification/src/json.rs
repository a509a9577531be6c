//! JSON values as the library reads them. Parsing and the accessors of
//! `serde_json::Value` are done by `serde_json`; what a value holds is given
//! by the model `JsonView`, and each accessor is stated over that model.
use vstd::prelude::*;

verus! {

/// Mathematical model of a JSON value. Numbers are told apart only as far
/// as the library reads them: an integer (as `serde_json` stores a number
/// written without fraction or exponent that fits 64 bits) or any other number.
pub enum JsonView {
    Null,
    Bool(bool),
    Int(int),
    OtherNumber,
    Str(Seq<char>),
    Array(Seq<JsonView>),
    Object(Map<Seq<char>, JsonView>),
}

/// What a `serde_json::Value` holds.
pub uninterp spec fn json_contents(v: serde_json::Value) -> JsonView;

/// What `serde_json::from_slice` gives for some bytes, as a JSON value:
/// `None` when the bytes are not one JSON value.
pub uninterp spec fn json_parse_bytes(bytes: Seq<u8>) -> Option<JsonView>;

/// The member `key` of an object; `None` for a missing member or a value that
/// is not an object.
pub open spec fn member(v: JsonView, key: Seq<char>) -> Option<JsonView> {
    match v {
        JsonView::Object(m) => if m.contains_key(key) { Some(m[key]) } else { None },
        _ => None,
    }
}

/// The text of a string value.
pub open spec fn text_of(v: Option<JsonView>) -> Option<Seq<char>> {
    match v {
        Some(JsonView::Str(s)) => Some(s),
        _ => None,
    }
}

/// The value of an integer that fits `i64`.
pub open spec fn i64_of(v: Option<JsonView>) -> Option<i64> {
    match v {
        Some(JsonView::Int(n)) => if i64::MIN <= n <= i64::MAX { Some(n as i64) } else { None },
        _ => None,
    }
}

/// The elements of an array value.
pub open spec fn elements_of(v: Option<JsonView>) -> Option<Seq<JsonView>> {
    match v {
        Some(JsonView::Array(s)) => Some(s),
        _ => None,
    }
}

/// Parses bytes as one JSON value with `serde_json::from_slice`; what the
/// value holds is named by `json_parse_bytes`.
#[verifier::external_body]
pub(crate) fn parse_json_bytes(bytes: &[u8]) -> (r: Option<serde_json::Value>)
    ensures
        match r {
            Some(v) => json_parse_bytes(bytes@) == Some(json_contents(v)),
            None => json_parse_bytes(bytes@) is None,
        },
{
    serde_json::from_slice::<serde_json::Value>(bytes).ok()
}

/// `Value::get` with a key: the member of an object, `None` for a missing
/// member or a value that is not an object.
#[verifier::external_body]
pub(crate) fn value_member<'a>(v: &'a serde_json::Value, key: &str) -> (r: Option<&'a serde_json::Value>)
    ensures
        match r {
            Some(x) => member(json_contents(*v), key@) == Some(json_contents(*x)),
            None => member(json_contents(*v), key@) is None,
        },
{
    v.get(key)
}

/// `Value::as_str`: the text of a string value, `None` for any other value.
#[verifier::external_body]
pub(crate) fn value_text(v: &serde_json::Value) -> (r: Option<&str>)
    ensures
        match r {
            Some(s) => text_of(Some(json_contents(*v))) == Some(s@),
            None => text_of(Some(json_contents(*v))) is None,
        },
{
    v.as_str()
}

/// `Value::as_i64`: an integer that fits `i64`, `None` for any other value.
#[verifier::external_body]
pub(crate) fn value_i64(v: &serde_json::Value) -> (r: Option<i64>)
    ensures
        r == i64_of(Some(json_contents(*v))),
{
    v.as_i64()
}

/// `Value::as_array`: the elements of an array, `None` for any other value.
#[verifier::external_body]
pub(crate) fn value_elements(v: &serde_json::Value) -> (r: Option<&Vec<serde_json::Value>>)
    ensures
        match r {
            Some(a) => elements_of(Some(json_contents(*v))) == Some(a@.map_values(|x: serde_json::Value| json_contents(x))),
            None => elements_of(Some(json_contents(*v))) is None,
        },
{
    v.as_array()
}

} // verus!
