//! JSON text, read by `serde_json`.
//!
//! Nothing here is proved about the JSON grammar: the text is handed to
//! `serde_json`, and what it reads is given a name that the contracts of the
//! decoders speak of.

use serde_json::Value;
use vstd::prelude::*;
use crate::model::maybe;
use crate::wire::{WireNumber, WireValue, WireView};

verus! {

/// `serde_json::Value`, a parsed JSON document. Its inside is not visible to
/// the verifier.
#[verifier::external_type_specification]
#[verifier::external_body]
pub struct ExJsonValue(serde_json::Value);

/// The document that a `serde_json::Value` holds.
pub uninterp spec fn json_content(value: Value) -> WireView;

/// The document that `serde_json::from_str` reads from a text, or `None`
/// where it reports an error.
pub uninterp spec fn json_text_content(text: Seq<char>) -> Option<WireView>;

/// Calls `serde_json::from_str` for a `serde_json::Value`.
///
/// Trusted: the outcome depends on the text alone, so it is named
/// [`json_text_content`]; a parse error becomes `None`.
#[verifier::external_body]
fn read_json_text(text: &str) -> (parsed: Option<Value>)
    ensures
        match parsed {
            Some(value) => json_text_content(text@) == Some(json_content(value)),
            None => json_text_content(text@) is None,
        },
{
    serde_json::from_str::<Value>(text).ok()
}

/// Moves a `serde_json::Value` into a [`WireValue`], variant by variant.
///
/// Trusted: the result holds the document that the argument holds. A number
/// holds what `as_i64`, `as_u64` and `as_f64` give, the last by its bits;
/// nothing is chosen among them here. Object members come in the order in
/// which `serde_json` walks them, and no key comes twice, since
/// `serde_json::Map` is a map and holds each key once.
#[verifier::external_body]
fn wire_of_json(value: Value) -> (wire: WireValue)
    ensures
        wire@ == json_content(value),
        wire@.well_formed(),
{
    match value {
        Value::Null => WireValue::Null,
        Value::Bool(flag) => WireValue::Bool(flag),
        Value::Number(n) => {
            let bits = n.as_f64().map(|x| x.to_bits());
            WireValue::Number(WireNumber { signed: n.as_i64(), unsigned: n.as_u64(), bits })
        },
        Value::String(text) => WireValue::String(text),
        Value::Array(items) => WireValue::Array(items.into_iter().map(wire_of_json).collect()),
        Value::Object(members) => WireValue::Object(
            members.into_iter().map(|(key, member)| (key, wire_of_json(member))).collect(),
        ),
    }
}

/// Reads a JSON text.
///
/// Returns the document that the text spells, or `None` where the text is
/// not JSON. No object of the document holds a key twice.
pub fn parse_json_text(text: &str) -> (parsed: Option<WireValue>)
    ensures
        maybe(parsed) == json_text_content(text@),
        parsed matches Some(document) ==> document@.well_formed(),
{
    match read_json_text(text) {
        Some(value) => Some(wire_of_json(value)),
        None => None,
    }
}

} // verus!
