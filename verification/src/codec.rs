//! JSON text, read and written by `serde_json`.
//!
//! Nothing in this module is proved about `serde_json` itself: the items
//! marked `external_body` state what the library relies on.

use crate::json::{Json, JsonModel};
use vstd::prelude::*;

verus! {

#[verifier::external_type_specification]
#[verifier::external_body]
pub struct ExValue(serde_json::Value);

/// The value that a `serde_json::Value` holds.
pub uninterp spec fn value_model(v: serde_json::Value) -> JsonModel;

/// The value that `serde_json::from_str` reads from `text`, or `None` where
/// it reports an error.
pub uninterp spec fn parsed(text: Seq<char>) -> Option<JsonModel>;

/// The value as a `serde_json::Map` keeps it: one member per name, in the
/// map's own order.
pub uninterp spec fn settled(j: JsonModel) -> JsonModel;

/// The text that `serde_json::to_string` writes for a value.
pub uninterp spec fn rendered(j: JsonModel) -> Seq<char>;

/// Calls `serde_json::from_str` for a `serde_json::Value`.  The result is
/// named: `parsed` is what the call reads from the text.  An error comes
/// back as its description.
#[verifier::external_body]
fn parse_value(text: &str) -> (r: Result<serde_json::Value, String>)
    ensures
        r matches Ok(v) ==> parsed(text@) == Some(value_model(v)),
        r is Err ==> parsed(text@) is None,
{
    serde_json::from_str::<serde_json::Value>(text).map_err(|e| e.to_string())
}

/// Converts a `serde_json::Value`, variant by variant.  A number is an `Int`
/// where `Number::as_i64` gives one, else a `Real` with the number's text.
#[verifier::external_body]
fn json_of(v: &serde_json::Value) -> (r: Json)
    ensures
        r@ == value_model(*v),
{
    match v {
        serde_json::Value::Null => Json::Null,
        serde_json::Value::Bool(b) => Json::Bool(*b),
        serde_json::Value::Number(n) => match n.as_i64() {
            Some(i) => Json::Int(i),
            None => Json::Real(n.to_string()),
        },
        serde_json::Value::String(s) => Json::Text(s.clone()),
        serde_json::Value::Array(a) => Json::Array(a.iter().map(json_of).collect()),
        serde_json::Value::Object(m) => Json::Object(m.iter().map(|(k, x)| (k.clone(), json_of(x))).collect()),
    }
}

/// Converts into a `serde_json::Value`, variant by variant.  The members of
/// an object are collected into a `serde_json::Map`; a `Real` whose text is
/// no number becomes `null`.
#[verifier::external_body]
fn value_of(j: &Json) -> (r: serde_json::Value)
    ensures
        value_model(r) == settled(j@),
{
    match j {
        Json::Null => serde_json::Value::Null,
        Json::Bool(b) => serde_json::Value::Bool(*b),
        Json::Int(i) => serde_json::Value::Number((*i).into()),
        Json::Real(s) => serde_json::from_str::<serde_json::Number>(s).map_or(serde_json::Value::Null, serde_json::Value::Number),
        Json::Text(s) => serde_json::Value::String(s.clone()),
        Json::Array(a) => serde_json::Value::Array(a.iter().map(value_of).collect()),
        Json::Object(o) => serde_json::Value::Object(o.iter().map(|(k, x)| (k.clone(), value_of(x))).collect()),
    }
}

/// Calls `serde_json::to_string`.  The result is named: `rendered` is the
/// text that the call writes.  The call writes into memory, and a
/// `serde_json::Value` has nothing that cannot be written: its keys are
/// strings, and a number that is not finite is written as `null`.  So the
/// call succeeds, and the description of an error is never handed out.
#[verifier::external_body]
fn render_value(v: &serde_json::Value) -> (r: Result<String, String>)
    ensures
        r is Ok,
        r matches Ok(s) ==> s@ == rendered(value_model(*v)),
{
    serde_json::to_string(v).map_err(|e| e.to_string())
}

/// Reads a JSON value from `text`.  On failure the result is the
/// description of what is wrong with the text.
pub fn parse(text: &str) -> (r: Result<Json, String>)
    ensures
        match r {
            Ok(j) => parsed(text@) == Some(j@),
            Err(_) => parsed(text@) is None,
        },
{
    match parse_value(text) {
        Ok(v) => Ok(json_of(&v)),
        Err(e) => Err(e),
    }
}

/// Writes `j` as JSON text.  Every value can be written, so the result is
/// `Ok`.
pub fn render(j: &Json) -> (r: Result<String, String>)
    ensures
        r matches Ok(s) && s@ == rendered(settled(j@)),
{
    let v = value_of(j);
    render_value(&v)
}

} // verus!
