//! The envelope decoder: a payload that may arrive wrapped in a string.
//!
//! A field that should hold a structure holds, depending on where the
//! document comes from, the structure itself, a string with the structure's
//! JSON text, `null`, or the empty string. The last two mean "no payload".

use vstd::prelude::*;
use crate::error::{DecodeError, DecodeErrorView};
use crate::json_text::{json_text_content, parse_json_text};
use crate::wire::{WireValue, WireView};

verus! {

/// What reading the text of a wrapped payload gives: the document read, or
/// the report that the text is not JSON.
pub open spec fn payload_of_parsed(parsed: Option<WireView>) -> Result<
    Option<WireView>,
    DecodeErrorView,
> {
    match parsed {
        Some(payload) => Ok(Some(payload)),
        None => Err(DecodeErrorView::EnvelopeParseFailure),
    }
}

/// The payload of an envelope: none for `null` and for the empty string,
/// the document that a non-empty string spells, and for every other kind
/// the document itself.
pub open spec fn envelope_payload(value: WireView) -> Result<Option<WireView>, DecodeErrorView> {
    match value {
        WireView::Null => Ok(None),
        WireView::String(text) => if text.len() == 0 {
            Ok(None)
        } else {
            payload_of_parsed(json_text_content(text))
        },
        _ => Ok(Some(value)),
    }
}

/// What an envelope decodes to under a decoder for its payload.
pub open spec fn envelope_of<T>(
    value: WireView,
    decoder: spec_fn(WireView) -> Result<T, DecodeErrorView>,
) -> Result<Option<T>, DecodeErrorView> {
    match envelope_payload(value) {
        Ok(None) => Ok(None),
        Ok(Some(payload)) => match decoder(payload) {
            Ok(decoded) => Ok(Some(decoded)),
            Err(error) => Err(error),
        },
        Err(error) => Err(error),
    }
}

/// Whether `result` is what `decoder` may return for `payload`, the value
/// wrapped in `Some`.
pub open spec fn decoded_by<T, F: Fn(&WireValue) -> Result<T, DecodeError>>(
    decoder: F,
    payload: &WireValue,
    result: Result<Option<T>, DecodeError>,
) -> bool {
    match result {
        Ok(Some(decoded)) => call_ensures(decoder, (payload,), Ok::<T, DecodeError>(decoded)),
        Ok(None) => false,
        Err(error) => call_ensures(decoder, (payload,), Err::<T, DecodeError>(error)),
    }
}

/// Decodes a payload that is there.
pub fn decode_payload<T, F: Fn(&WireValue) -> Result<T, DecodeError>>(
    payload: &WireValue,
    inner_decoder: F,
) -> (result: Result<Option<T>, DecodeError>)
    requires
        call_requires(inner_decoder, (payload,)),
    ensures
        decoded_by(inner_decoder, payload, result),
{
    match inner_decoder(payload) {
        Ok(decoded) => Ok(Some(decoded)),
        Err(error) => Err(error),
    }
}

/// Decodes what reading the text of a wrapped payload gave: the document
/// read goes to `inner_decoder`, a text that could not be read is reported.
pub fn decode_parsed_envelope<T, F: Fn(&WireValue) -> Result<T, DecodeError>>(
    parsed: &Option<WireValue>,
    inner_decoder: F,
) -> (result: Result<Option<T>, DecodeError>)
    requires
        forall|v: &WireValue| call_requires(inner_decoder, (v,)),
    ensures
        match parsed {
            Some(payload) => decoded_by(inner_decoder, payload, result),
            None => result is Err && result->Err_0@ == DecodeErrorView::EnvelopeParseFailure,
        },
{
    match parsed {
        Some(payload) => decode_payload(payload, inner_decoder),
        None => Err(DecodeError::EnvelopeParseFailure),
    }
}

/// Decodes an envelope.
///
/// `null` and the empty string are "no payload" and give `Ok(None)`. A
/// non-empty string is read as JSON text, and the document read goes to
/// `inner_decoder`. Any other document goes to `inner_decoder` as it is.
pub fn decode_envelope<T, F: Fn(&WireValue) -> Result<T, DecodeError>>(
    value: &WireValue,
    inner_decoder: F,
) -> (result: Result<Option<T>, DecodeError>)
    requires
        forall|v: &WireValue| call_requires(inner_decoder, (v,)),
    ensures
        match envelope_payload(value@) {
            Ok(None) => result is Ok && result->Ok_0 is None,
            Ok(Some(payload)) => exists|held: WireValue|
                held@ == payload && #[trigger] decoded_by(inner_decoder, &held, result),
            Err(error) => result is Err && result->Err_0@ == error,
        },
        // No payload: `null` and the empty string.
        is_empty_envelope(value@) ==> result is Ok && result->Ok_0 is None,
        // A direct structure is decoded as it stands.
        !(value@ is Null) && !(value@ is String) ==> decoded_by(inner_decoder, value, result),
{
    match value {
        WireValue::Null => Ok(None),
        WireValue::String(text) => {
            if text.as_str().is_empty() {
                Ok(None)
            } else {
                let parsed = parse_json_text(text.as_str());
                let result = decode_parsed_envelope(&parsed, inner_decoder);
                proof {
                    if let Some(held) = parsed {
                        assert(decoded_by(inner_decoder, &held, result));
                    }
                }
                result
            }
        },
        _ => {
            let result = decode_payload(value, inner_decoder);
            assert(decoded_by(inner_decoder, value, result));
            result
        },
    }
}

/// Decodes a structure that may arrive as JSON text wrapped in a string:
/// [`decode_envelope`] under the name of the case it was made for.
pub fn deserialize_string_wrapped_json<T, F: Fn(&WireValue) -> Result<T, DecodeError>>(
    value: &WireValue,
    inner_decoder: F,
) -> (result: Result<Option<T>, DecodeError>)
    requires
        forall|v: &WireValue| call_requires(inner_decoder, (v,)),
    ensures
        match envelope_payload(value@) {
            Ok(None) => result is Ok && result->Ok_0 is None,
            Ok(Some(payload)) => exists|held: WireValue|
                held@ == payload && #[trigger] decoded_by(inner_decoder, &held, result),
            Err(error) => result is Err && result->Err_0@ == error,
        },
        // No payload: `null` and the empty string.
        is_empty_envelope(value@) ==> result is Ok && result->Ok_0 is None,
        // A direct structure is decoded as it stands.
        !(value@ is Null) && !(value@ is String) ==> decoded_by(inner_decoder, value, result),
{
    decode_envelope(value, inner_decoder)
}

/// Whether a document is an envelope without payload: `null` or the empty
/// string.
pub open spec fn is_empty_envelope(value: WireView) -> bool {
    value is Null || (value matches WireView::String(text) && text.len() == 0)
}

/// An envelope without payload decodes to nothing, whatever the decoder.
pub proof fn empty_envelope_is_absent<T>(
    value: WireView,
    decoder: spec_fn(WireView) -> Result<T, DecodeErrorView>,
)
    requires
        is_empty_envelope(value),
    ensures
        envelope_of(value, decoder) == Ok::<Option<T>, DecodeErrorView>(None),
{
}

/// A direct structure in an envelope decodes as the structure itself does.
pub proof fn direct_envelope_decodes_directly<T>(
    value: WireView,
    decoder: spec_fn(WireView) -> Result<T, DecodeErrorView>,
)
    requires
        !(value is Null),
        !(value is String),
    ensures
        envelope_of(value, decoder) == match decoder(value) {
            Ok(decoded) => Ok::<Option<T>, DecodeErrorView>(Some(decoded)),
            Err(error) => Err(error),
        },
{
}

/// A string that holds the JSON text of a structure decodes as the
/// structure does: wrapped and direct forms agree.
pub proof fn wrapped_envelope_decodes_as_direct<T>(
    text: Seq<char>,
    payload: WireView,
    decoder: spec_fn(WireView) -> Result<T, DecodeErrorView>,
)
    requires
        text.len() > 0,
        json_text_content(text) == Some(payload),
    ensures
        envelope_of(WireView::String(text), decoder) == match decoder(payload) {
            Ok(decoded) => Ok::<Option<T>, DecodeErrorView>(Some(decoded)),
            Err(error) => Err(error),
        },
        !(payload is Null) && !(payload is String) ==> envelope_of(WireView::String(text), decoder)
            == envelope_of(payload, decoder),
{
}

} // verus!
