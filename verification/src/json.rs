//! The `serde_json` calls that the library makes: building a `serde_json::Value`
//! piece by piece, reading a number from text, and writing JSON text.
//!
//! Nothing in this file is proved. Each contract states what the named
//! `serde_json` item does.

use crate::order::strictly_sorted;
use crate::text::strings_model;
use crate::value::{JsonValue, NumberView};
use vstd::prelude::*;

verus! {

/// `serde_json::Value`, opaque: only the calls below make or read one.
#[verifier::external_type_specification]
#[verifier::external_body]
pub struct ExJsonValue(serde_json::Value);

/// The tree that a `serde_json::Value` holds.
pub uninterp spec fn json_of(v: serde_json::Value) -> JsonValue;

/// The bit pattern of the double that `serde_json` reads from `text`, where it
/// reads a number that is no integer.
pub uninterp spec fn text_double(text: Seq<char>) -> Option<u64>;

/// The text that `serde_json` writes for a value in its compact form.
pub uninterp spec fn compact_text(v: JsonValue) -> Seq<char>;

/// The text that `serde_json` writes for a list of values in its pretty form.
pub uninterp spec fn pretty_text(rows: Seq<JsonValue>) -> Seq<char>;

/// The trees of a list of `serde_json` values.
pub open spec fn json_of_all(items: Seq<serde_json::Value>) -> Seq<JsonValue> {
    Seq::new(items.len(), |i: int| json_of(items[i]))
}

/// The entries of an object with the given keys and values, pairwise.
pub open spec fn json_entries(keys: Seq<String>, values: Seq<serde_json::Value>) -> Seq<
    (Seq<char>, JsonValue),
> {
    Seq::new(keys.len(), |i: int| (keys[i]@, json_of(values[i])))
}

/// `serde_json::Value::Null`: the null value.
#[verifier::external_body]
pub(crate) fn json_null() -> (r: serde_json::Value)
    ensures
        json_of(r) == JsonValue::Null,
{
    serde_json::Value::Null
}

/// `serde_json::Value::Bool`: the boolean `b`.
#[verifier::external_body]
pub(crate) fn json_bool(b: bool) -> (r: serde_json::Value)
    ensures
        json_of(r) == JsonValue::Bool(b),
{
    serde_json::Value::Bool(b)
}

/// `serde_json::Value::from` on a `u64`: the number `u`, exactly.
#[verifier::external_body]
pub(crate) fn json_unsigned(u: u64) -> (r: serde_json::Value)
    ensures
        json_of(r) == JsonValue::Number(NumberView::Int(u as int)),
{
    serde_json::Value::from(u)
}

/// `serde_json::Value::from` on an `i64`: the number `i`, exactly.
#[verifier::external_body]
pub(crate) fn json_signed(i: i64) -> (r: serde_json::Value)
    ensures
        json_of(r) == JsonValue::Number(NumberView::Int(i as int)),
{
    serde_json::Value::from(i)
}

/// `serde_json::Value::String`: the string `s`.
#[verifier::external_body]
pub(crate) fn json_string(s: String) -> (r: serde_json::Value)
    ensures
        json_of(r) == JsonValue::String(s@),
{
    serde_json::Value::String(s)
}

/// `serde_json::Value::Array`: the array of `items`, in their order.
#[verifier::external_body]
pub(crate) fn json_array(items: Vec<serde_json::Value>) -> (r: serde_json::Value)
    ensures
        json_of(r) == JsonValue::Array(json_of_all(items@)),
{
    serde_json::Value::Array(items)
}

/// `serde_json::Value::Object` on a `serde_json::Map` collected from pairs:
/// the map orders its entries by key, so pairs that come in strictly
/// increasing key order stay as they are.
#[verifier::external_body]
pub(crate) fn json_object(keys: Vec<String>, values: Vec<serde_json::Value>) -> (r:
    serde_json::Value)
    requires
        keys.len() == values.len(),
        strictly_sorted(strings_model(keys@)),
    ensures
        json_of(r) == JsonValue::Object(json_entries(keys@, values@)),
{
    serde_json::Value::Object(keys.into_iter().zip(values).collect())
}

/// `str::parse` to a `serde_json::Number`, then `Number::as_f64` and
/// `to_bits`: the double read from `text`, `None` where `text` is no number or
/// is read as an integer.
#[verifier::external_body]
pub(crate) fn parse_double(text: &str) -> (r: Option<u64>)
    ensures
        r == text_double(text@),
{
    let number = text.parse::<serde_json::Number>().ok()?;
    if number.is_f64() {
        number.as_f64().map(|x| x.to_bits())
    } else {
        None
    }
}

/// `str::parse` to a `serde_json::Number`, wrapped in `serde_json::Value::Number`:
/// the double read from `text`.
#[verifier::external_body]
pub(crate) fn json_double(text: &str) -> (r: Option<serde_json::Value>)
    ensures
        r is Some || text_double(text@) is None,
        r matches Some(v) ==> (text_double(text@) matches Some(bits) ==> json_of(v)
            == JsonValue::Number(NumberView::Float(bits))),
{
    text.parse::<serde_json::Number>().ok().map(serde_json::Value::Number)
}

/// `ToString::to_string` on a `serde_json::Value`: its compact JSON text.
#[verifier::external_body]
pub(crate) fn to_compact(v: &serde_json::Value) -> (s: String)
    ensures
        s@ == compact_text(json_of(*v)),
{
    v.to_string()
}

/// `serde_json::to_string_pretty` on a list of values: their pretty JSON
/// text. Serialization fails only where a value's own `Serialize` fails or a
/// map has a key that is no string; a `serde_json::Value` does neither, and
/// every write goes to a `Vec<u8>`, so there is always a text.
#[verifier::external_body]
pub(crate) fn to_pretty(rows: &Vec<serde_json::Value>) -> (r: Option<String>)
    ensures
        r is Some,
        r matches Some(s) ==> s@ == pretty_text(json_of_all(rows@)),
{
    serde_json::to_string_pretty(rows).ok()
}

} // verus!
