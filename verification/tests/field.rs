use xdnmb_rs::error::{DecodeError, RecordKind};
use xdnmb_rs::field::{
    blank, decode_text, fail_field, find, find_either, integer_field, optional_boolean_field,
    optional_integer_field, optional_text_field, require, text_field,
};
use xdnmb_rs::json_text::parse_json_text;
use xdnmb_rs::list::{decode_integer_list, integer_list_envelope_field};
use xdnmb_rs::scalar::{SNBool, SNum};
use xdnmb_rs::wire::{WireNumber, WireValue};

fn members(source: &str) -> Vec<(String, WireValue)> {
    match parse_json_text(source) {
        Some(WireValue::Object(members)) => members,
        other => panic!("not an object: {:?}", other),
    }
}

fn text(s: &str) -> WireValue {
    WireValue::String(s.to_string())
}

/// An integer as the reader of a text hands it over.
fn whole(n: i64) -> WireValue {
    WireValue::Number(WireNumber {
        signed: Some(n),
        unsigned: u64::try_from(n).ok(),
        bits: Some((n as f64).to_bits()),
    })
}

#[test]
fn a_key_is_found_at_its_first_occurrence() {
    let object = vec![
        ("a".to_string(), whole(1)),
        ("b".to_string(), whole(2)),
        ("a".to_string(), whole(3)),
    ];
    assert_eq!(find(&object, "a"), Some(&whole(1)));
    assert_eq!(find(&object, "b"), Some(&whole(2)));
    assert_eq!(find(&object, "c"), None);
    assert_eq!(find(&object, ""), None);
    assert_eq!(find(&object, "A"), None);
}

#[test]
fn a_field_with_two_names_prefers_the_first() {
    let both = members("{\"Hide\": 0, \"hide\": 1}");
    assert_eq!(find_either(&both, "hide", "Hide"), ("hide", Some(&whole(1))));
    let second = members("{\"Hide\": 0}");
    assert_eq!(find_either(&second, "hide", "Hide"), ("Hide", Some(&whole(0))));
    let first = members("{\"hide\": 1}");
    assert_eq!(find_either(&first, "hide", "Hide"), ("hide", Some(&whole(1))));
    let neither = members("{\"x\": 1}");
    assert_eq!(find_either(&neither, "hide", "Hide"), ("hide", None));
}

#[test]
fn scenario_string_id_numeric_hide_empty_reply_count_by_field() {
    let object = members("{\"id\": \"123\", \"Hide\": 0, \"ReplyCount\": \"\"}");
    let record = RecordKind::Thread;
    assert_eq!(integer_field(find(&object, "id"), record, "id"), Ok(Some(SNum::new(123))));
    let hide = find_either(&object, "hide", "Hide");
    assert_eq!(optional_boolean_field(hide.1, record, hide.0), Ok(Some(SNBool::new(false))));
    let count = find_either(&object, "reply_count", "ReplyCount");
    assert_eq!(optional_integer_field(count.1, record, count.0), Ok(None));
}

#[test]
fn scenario_number_and_string_encodings_agree_by_field() {
    let record = RecordKind::Thread;
    let native = members("{\"id\": 123, \"Hide\": true}");
    let spelled = members("{\"id\": \"123\", \"Hide\": \"1\"}");
    let id_of = |object: &Vec<(String, WireValue)>| integer_field(find(object, "id"), record, "id");
    let hide_of = |object: &Vec<(String, WireValue)>| {
        let hide = find_either(object, "hide", "Hide");
        optional_boolean_field(hide.1, record, hide.0)
    };
    assert_eq!(id_of(&native), Ok(Some(SNum::new(123))));
    assert_eq!(id_of(&native), id_of(&spelled));
    assert_eq!(hide_of(&native), Ok(Some(SNBool::new(true))));
    assert_eq!(hide_of(&native), hide_of(&spelled));
}

#[test]
fn scenario_wrapped_recent_replies_agree_by_field() {
    let record = RecordKind::Thread;
    let wrapped = members("{\"recent_replies\": \"[101,102]\"}");
    let native = members("{\"recent_replies\": [101,102]}");
    let list_of = |object: &Vec<(String, WireValue)>| {
        integer_list_envelope_field(find(object, "recent_replies"), record, "recent_replies")
    };
    assert_eq!(list_of(&wrapped), Ok(Some(vec![SNum::new(101), SNum::new(102)])));
    assert_eq!(list_of(&wrapped), list_of(&native));
}

#[test]
fn scenario_hide_five_is_out_of_range_by_field() {
    let object = members("{\"Hide\": 5}");
    let hide = find_either(&object, "hide", "Hide");
    let failure = optional_boolean_field(hide.1, RecordKind::Thread, hide.0).unwrap_err();
    assert_eq!(
        failure,
        DecodeError::FieldDecodeFailure {
            record: RecordKind::Thread,
            field: "Hide".to_string(),
            raw: whole(5),
            cause: Box::new(DecodeError::BooleanOutOfRange),
        }
    );
    assert_eq!(failure.root(), &DecodeError::BooleanOutOfRange);
}

#[test]
fn a_missing_key_is_absent_without_being_decoded() {
    let record = RecordKind::Forum;
    assert_eq!(integer_field(None, record, "id"), Ok(None));
    assert_eq!(text_field(None, record, "name"), Ok(None));
    assert_eq!(optional_integer_field(None, record, "sort"), Ok(None));
    assert_eq!(optional_boolean_field(None, record, "safe_mode"), Ok(None));
    assert_eq!(optional_text_field(None, record, "status"), Ok(None));
    assert_eq!(integer_list_envelope_field(None, record, "recent_replies"), Ok(None));
}

#[test]
fn a_required_scalar_reads_the_empty_string_as_zero() {
    assert_eq!(
        integer_field(Some(&text("")), RecordKind::Forum, "id"),
        Ok(Some(SNum::new(0)))
    );
}

#[test]
fn an_optional_scalar_reads_null_and_the_empty_string_as_absent() {
    let record = RecordKind::Forum;
    assert_eq!(optional_integer_field(Some(&text("")), record, "sort"), Ok(None));
    assert_eq!(optional_integer_field(Some(&WireValue::Null), record, "sort"), Ok(None));
    assert_eq!(optional_boolean_field(Some(&text("")), record, "safe_mode"), Ok(None));
    assert_eq!(optional_boolean_field(Some(&WireValue::Null), record, "safe_mode"), Ok(None));
    assert_eq!(optional_integer_field(Some(&text("0")), record, "sort"), Ok(Some(SNum::new(0))));
    assert_eq!(
        optional_boolean_field(Some(&whole(0)), record, "safe_mode"),
        Ok(Some(SNBool::new(false)))
    );
}

#[test]
fn an_optional_text_keeps_the_empty_string() {
    let record = RecordKind::Forum;
    assert_eq!(optional_text_field(Some(&text("")), record, "status"), Ok(Some(String::new())));
    assert_eq!(optional_text_field(Some(&WireValue::Null), record, "status"), Ok(None));
    assert_eq!(
        optional_text_field(Some(&text("n")), record, "status"),
        Ok(Some("n".to_string()))
    );
}

#[test]
fn a_text_must_be_a_string() {
    assert_eq!(decode_text(&text("abc")), Ok("abc".to_string()));
    assert_eq!(decode_text(&whole(1)), Err(DecodeError::UnsupportedShape));
    assert_eq!(decode_text(&WireValue::Null), Err(DecodeError::UnsupportedShape));
    assert_eq!(
        text_field(Some(&WireValue::Null), RecordKind::Forum, "name"),
        Err(DecodeError::FieldDecodeFailure {
            record: RecordKind::Forum,
            field: "name".to_string(),
            raw: WireValue::Null,
            cause: Box::new(DecodeError::UnsupportedShape),
        })
    );
    assert_eq!(
        optional_text_field(Some(&whole(3)), RecordKind::Forum, "status"),
        Err(DecodeError::FieldDecodeFailure {
            record: RecordKind::Forum,
            field: "status".to_string(),
            raw: whole(3),
            cause: Box::new(DecodeError::UnsupportedShape),
        })
    );
}

#[test]
fn a_malformed_field_is_reported_with_its_name_and_value() {
    assert_eq!(
        integer_field(Some(&text("x1")), RecordKind::ForumGroup, "sort"),
        Err(DecodeError::FieldDecodeFailure {
            record: RecordKind::ForumGroup,
            field: "sort".to_string(),
            raw: text("x1"),
            cause: Box::new(DecodeError::NotAnInteger),
        })
    );
    assert_eq!(
        fail_field(RecordKind::Thread, "fid", &whole(1), DecodeError::NumberOutOfRange),
        DecodeError::FieldDecodeFailure {
            record: RecordKind::Thread,
            field: "fid".to_string(),
            raw: whole(1),
            cause: Box::new(DecodeError::NumberOutOfRange),
        }
    );
}

#[test]
fn a_required_field_that_is_missing_is_reported() {
    assert_eq!(require(Some(5), RecordKind::Thread, "id"), Ok(5));
    assert_eq!(
        require(None::<i64>, RecordKind::Thread, "id"),
        Err(DecodeError::MissingRequiredField {
            record: RecordKind::Thread,
            field: "id".to_string(),
        })
    );
}

#[test]
fn blank_documents_are_null_and_the_empty_string() {
    assert!(blank(&WireValue::Null));
    assert!(blank(&text("")));
    assert!(!blank(&text(" ")));
    assert!(!blank(&whole(0)));
    assert!(!blank(&WireValue::Bool(false)));
    assert!(!blank(&WireValue::Array(vec![])));
}

#[test]
fn a_list_of_integers_is_decoded_item_by_item() {
    let list = WireValue::Array(vec![whole(1), text("2"), text("")]);
    assert_eq!(
        decode_integer_list(&list),
        Ok(vec![SNum::new(1), SNum::new(2), SNum::new(0)])
    );
    assert_eq!(decode_integer_list(&WireValue::Array(vec![])), Ok(vec![]));
    assert_eq!(decode_integer_list(&WireValue::Null), Err(DecodeError::UnsupportedShape));
    assert_eq!(decode_integer_list(&text("[1]")), Err(DecodeError::UnsupportedShape));
}

#[test]
fn the_first_item_that_fails_decides_the_failure_of_a_list() {
    let list = WireValue::Array(vec![whole(1), WireValue::Bool(true), text("x")]);
    assert_eq!(decode_integer_list(&list), Err(DecodeError::UnsupportedShape));
    let list = WireValue::Array(vec![whole(1), text("x"), WireValue::Bool(true)]);
    assert_eq!(decode_integer_list(&list), Err(DecodeError::NotAnInteger));
}

#[test]
fn an_envelope_field_reports_failures_with_its_name() {
    let record = RecordKind::Thread;
    let key = "recent_replies";
    assert_eq!(
        integer_list_envelope_field(Some(&text("[101,102]")), record, key),
        Ok(Some(vec![SNum::new(101), SNum::new(102)]))
    );
    assert_eq!(integer_list_envelope_field(Some(&text("")), record, key), Ok(None));
    assert_eq!(integer_list_envelope_field(Some(&WireValue::Null), record, key), Ok(None));
    assert_eq!(
        integer_list_envelope_field(Some(&text("[101,")), record, key),
        Err(DecodeError::FieldDecodeFailure {
            record,
            field: key.to_string(),
            raw: text("[101,"),
            cause: Box::new(DecodeError::EnvelopeParseFailure),
        })
    );
    assert_eq!(
        integer_list_envelope_field(Some(&text("[true]")), record, key),
        Err(DecodeError::FieldDecodeFailure {
            record,
            field: key.to_string(),
            raw: text("[true]"),
            cause: Box::new(DecodeError::UnsupportedShape),
        })
    );
}

#[test]
fn a_copy_of_a_failure_equals_it() {
    let failure = DecodeError::FieldDecodeFailure {
        record: RecordKind::Thread,
        field: "Replies".to_string(),
        raw: WireValue::Array(vec![whole(1)]),
        cause: Box::new(DecodeError::MissingRequiredField {
            record: RecordKind::ThreadReply,
            field: "id".to_string(),
        }),
    };
    assert_eq!(failure.clone(), failure);
    assert_eq!(failure.duplicate(), failure);
    assert_eq!(
        failure.root(),
        &DecodeError::MissingRequiredField {
            record: RecordKind::ThreadReply,
            field: "id".to_string(),
        }
    );
    assert_eq!(DecodeError::NotABoolean.root(), &DecodeError::NotABoolean);
}
