use vstd::prelude::*;

verus! {

#[verifier::external_type_specification]
#[verifier::external_body]
pub struct ExValue(serde_json::Value);

#[verifier::external_type_specification]
#[verifier::external_body]
pub struct ExError(serde_json::Error);

/// A JSON number as far as this library reads it.
pub enum JsonNumber {
    /// A non-negative integer that fits in 64 bits.
    Unsigned(u64),
    /// A negative integer that fits in 64 bits.
    Negative(i64),
    /// Any other number: one with a fraction or an exponent, an integer
    /// outside both 64-bit ranges, or `-0`. Its value is not modelled.
    Fractional,
}

/// The mathematical content of a JSON document.
pub enum JsonModel {
    Null,
    Bool(bool),
    Number(JsonNumber),
    Str(Seq<char>),
    Array(Seq<JsonModel>),
    Object(Map<Seq<char>, JsonModel>),
}

/// What a parsed `serde_json::Value` holds.
pub uninterp spec fn json_view(v: serde_json::Value) -> JsonModel;

/// The document that a text parses to, or `None` where the parser rejects it:
/// text that is not JSON, and also JSON nested too deeply or holding a number
/// out of range.
pub uninterp spec fn parsed_json(text: Seq<char>) -> Option<JsonModel>;

/// The member `key` of an object; `None` for a missing key or a non-object.
pub open spec fn member(j: JsonModel, key: Seq<char>) -> Option<JsonModel> {
    match j {
        JsonModel::Object(m) => if m.contains_key(key) {
            Some(m[key])
        } else {
            None
        },
        _ => None,
    }
}

/// The text of a string member, if `j` has one under `key`.
pub open spec fn str_member(j: JsonModel, key: Seq<char>) -> Option<Seq<char>> {
    match member(j, key) {
        Some(JsonModel::Str(s)) => Some(s),
        _ => None,
    }
}

/// The value of an unsigned integer member, if `j` has one under `key`.
pub open spec fn u64_member(j: JsonModel, key: Seq<char>) -> Option<u64> {
    match member(j, key) {
        Some(JsonModel::Number(JsonNumber::Unsigned(n))) => Some(n),
        _ => None,
    }
}

/// Relies on serde_json::from_str into a `Value`: it fails exactly on the text
/// that the parser rejects (see `parsed_json`), and otherwise holds the parsed
/// document.
#[verifier::external_body]
pub(crate) fn parse_value(text: &str) -> (r: Result<serde_json::Value, serde_json::Error>)
    ensures
        r is Ok <==> parsed_json(text@) is Some,
        r matches Ok(v) ==> Some(json_view(v)) == parsed_json(text@),
{
    serde_json::from_str::<serde_json::Value>(text)
}

/// Relies on serde_json::Value::as_array: the elements of an array, `None`
/// for any other value.
#[verifier::external_body]
pub(crate) fn value_as_array(v: &serde_json::Value) -> (r: Option<&Vec<serde_json::Value>>)
    ensures
        match json_view(*v) {
            JsonModel::Array(items) => r matches Some(a) && a@.len() == items.len()
                && forall|i: int| 0 <= i < items.len() ==> json_view(#[trigger] a@[i]) == items[i],
            _ => r is None,
        },
{
    v.as_array()
}

/// Relies on serde_json::Value::get with a string index: the member under
/// `key` of an object, `None` for a missing key or a non-object.
#[verifier::external_body]
pub(crate) fn value_get<'a>(v: &'a serde_json::Value, key: &str) -> (r: Option<&'a serde_json::Value>)
    ensures
        match member(json_view(*v), key@) {
            Some(m) => r matches Some(x) && json_view(*x) == m,
            None => r is None,
        },
{
    v.get(key)
}

/// Relies on serde_json::Value::as_str: the text of a string, `None` for any
/// other value.
#[verifier::external_body]
pub(crate) fn value_as_str(v: &serde_json::Value) -> (r: Option<&str>)
    ensures
        match json_view(*v) {
            JsonModel::Str(s) => r matches Some(t) && t@ == s,
            _ => r is None,
        },
{
    v.as_str()
}

/// Relies on serde_json::Value::as_u64: the value of a non-negative integer
/// that fits in 64 bits, `None` for any other value.
#[verifier::external_body]
pub(crate) fn value_as_u64(v: &serde_json::Value) -> (r: Option<u64>)
    ensures
        match json_view(*v) {
            JsonModel::Number(JsonNumber::Unsigned(n)) => r == Some(n),
            _ => r is None,
        },
{
    v.as_u64()
}

} // verus!
