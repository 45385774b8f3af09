use xdnmb_rs::envelope::{
    decode_envelope, decode_parsed_envelope, decode_payload, deserialize_string_wrapped_json,
};
use xdnmb_rs::error::DecodeError;
use xdnmb_rs::json_text::parse_json_text;
use xdnmb_rs::list::decode_integer_list;
use xdnmb_rs::scalar::{normalize_boolean, normalize_integer, SNum};
use xdnmb_rs::wire::{WireNumber, WireValue};

fn text(s: &str) -> WireValue {
    WireValue::String(s.to_string())
}

/// An integer as the reader of a text hands it over.
fn whole(n: i64) -> WireValue {
    WireValue::Number(WireNumber {
        signed: Some(n),
        unsigned: u64::try_from(n).ok(),
        bits: Some((n as f64).to_bits()),
    })
}

fn numbers(value: &WireValue) -> Result<Option<Vec<i64>>, DecodeError> {
    decode_envelope(value, decode_integer_list)
        .map(|list| list.map(|items| items.into_iter().map(SNum::into_inner).collect()))
}

#[test]
fn null_and_the_empty_string_are_absent() {
    assert_eq!(numbers(&WireValue::Null), Ok(None));
    assert_eq!(numbers(&text("")), Ok(None));
    assert_eq!(decode_envelope(&WireValue::Null, normalize_integer), Ok(None));
    assert_eq!(decode_envelope(&text(""), normalize_boolean), Ok(None));
}

#[test]
fn a_direct_structure_decodes_as_it_does_directly() {
    let array = WireValue::Array(vec![whole(101), whole(102)]);
    assert_eq!(numbers(&array), Ok(Some(vec![101, 102])));
    assert_eq!(
        decode_envelope(&array, decode_integer_list),
        decode_integer_list(&array).map(Some)
    );
    let mixed = WireValue::Array(vec![whole(1), text("x")]);
    assert_eq!(
        decode_envelope(&mixed, decode_integer_list),
        decode_integer_list(&mixed).map(Some)
    );
    assert_eq!(numbers(&mixed), Err(DecodeError::NotAnInteger));
    assert_eq!(decode_envelope(&whole(7), normalize_integer), Ok(Some(SNum::new(7))));
    assert_eq!(
        decode_envelope(&WireValue::Bool(true), normalize_integer),
        Err(DecodeError::UnsupportedShape)
    );
}

#[test]
fn a_wrapped_structure_decodes_as_the_direct_one() {
    let wrapped = text("[101,102]");
    let direct = WireValue::Array(vec![whole(101), whole(102)]);
    assert_eq!(numbers(&wrapped), Ok(Some(vec![101, 102])));
    assert_eq!(numbers(&wrapped), numbers(&direct));
}

#[test]
fn a_wrapped_structure_decodes_as_its_parsed_text() {
    for source in ["[1, \"2\", \"\"]", "[]", "[1, true]", "{\"a\": 1}", "3", "[\"x\"]"] {
        let parsed = parse_json_text(source).unwrap();
        assert_eq!(
            decode_envelope(&text(source), decode_integer_list),
            decode_integer_list(&parsed).map(Some),
            "on {:?}",
            source
        );
    }
    assert_eq!(numbers(&text("[1, \"2\", \"\"]")), Ok(Some(vec![1, 2, 0])));
    assert_eq!(numbers(&text("[]")), Ok(Some(vec![])));
}

#[test]
fn a_wrapped_scalar_goes_through_the_inner_decoder() {
    assert_eq!(decode_envelope(&text("12"), normalize_integer), Ok(Some(SNum::new(12))));
    assert_eq!(decode_envelope(&text("\"12\""), normalize_integer), Ok(Some(SNum::new(12))));
    assert_eq!(
        decode_envelope(&text("null"), normalize_integer),
        Err(DecodeError::UnsupportedShape)
    );
}

#[test]
fn a_string_that_is_not_json_is_an_envelope_parse_failure() {
    assert_eq!(numbers(&text("[101,102")), Err(DecodeError::EnvelopeParseFailure));
    assert_eq!(numbers(&text("hello")), Err(DecodeError::EnvelopeParseFailure));
    assert_eq!(numbers(&text(" ")), Err(DecodeError::EnvelopeParseFailure));
}

#[test]
fn a_failure_of_the_inner_decoder_is_handed_on() {
    assert_eq!(numbers(&text("[1, 2.5]")), Err(DecodeError::NumberOutOfRange));
    assert_eq!(numbers(&text("{\"a\": 1}")), Err(DecodeError::UnsupportedShape));
    assert_eq!(numbers(&whole(5)), Err(DecodeError::UnsupportedShape));
}

#[test]
fn what_follows_the_parse_is_decided_by_its_outcome() {
    assert_eq!(
        decode_parsed_envelope(&None, decode_integer_list),
        Err(DecodeError::EnvelopeParseFailure)
    );
    let parsed = Some(WireValue::Array(vec![whole(4)]));
    assert_eq!(
        decode_parsed_envelope(&parsed, decode_integer_list),
        Ok(Some(vec![SNum::new(4)]))
    );
    assert_eq!(
        decode_parsed_envelope(&Some(WireValue::Null), decode_integer_list),
        Err(DecodeError::UnsupportedShape)
    );
    assert_eq!(decode_payload(&whole(9), normalize_integer), Ok(Some(SNum::new(9))));
}

#[test]
fn an_envelope_takes_a_closure_as_inner_decoder() {
    let doubled = |value: &WireValue| -> Result<i64, DecodeError> {
        normalize_integer(value).map(|n| 2 * n.into_inner())
    };
    assert_eq!(decode_envelope(&text("21"), doubled), Ok(Some(42)));
}

#[test]
fn the_envelope_decoder_answers_to_both_of_its_names() {
    for source in [WireValue::Null, text(""), text("[1]"), text("[1"), whole(3)] {
        assert_eq!(
            deserialize_string_wrapped_json(&source, decode_integer_list),
            decode_envelope(&source, decode_integer_list)
        );
    }
}
