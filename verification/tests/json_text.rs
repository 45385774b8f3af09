use xdnmb_rs::json_text::parse_json_text;
use xdnmb_rs::wire::{WireNumber, WireValue};

fn text(s: &str) -> WireValue {
    WireValue::String(s.to_string())
}

/// An integer as the reader of a text hands it over.
fn whole(n: i64) -> WireValue {
    WireValue::Number(WireNumber {
        signed: Some(n),
        unsigned: u64::try_from(n).ok(),
        bits: Some((n as f64).to_bits()),
    })
}

/// A number without an integer reading, as the reader of a text hands it over.
fn double(x: f64) -> WireValue {
    WireValue::Number(WireNumber { signed: None, unsigned: None, bits: Some(x.to_bits()) })
}

#[test]
fn scalars_are_read() {
    assert_eq!(parse_json_text("null"), Some(WireValue::Null));
    assert_eq!(parse_json_text("true"), Some(WireValue::Bool(true)));
    assert_eq!(parse_json_text("false"), Some(WireValue::Bool(false)));
    assert_eq!(parse_json_text("12"), Some(whole(12)));
    assert_eq!(parse_json_text("-12"), Some(whole(-12)));
    assert_eq!(parse_json_text("\"12\""), Some(text("12")));
    assert_eq!(parse_json_text("\"\""), Some(text("")));
    assert_eq!(parse_json_text(" 7 "), Some(whole(7)));
}

#[test]
fn numbers_keep_their_kind() {
    assert_eq!(parse_json_text("9223372036854775807"), Some(whole(i64::MAX)));
    assert_eq!(parse_json_text("-9223372036854775808"), Some(whole(i64::MIN)));
    assert_eq!(
        parse_json_text("9223372036854775808"),
        Some(WireValue::Number(WireNumber {
            signed: None,
            unsigned: Some(9223372036854775808),
            bits: Some(9223372036854775808f64.to_bits()),
        }))
    );
    assert_eq!(
        parse_json_text("18446744073709551615"),
        Some(WireValue::Number(WireNumber {
            signed: None,
            unsigned: Some(u64::MAX),
            bits: Some((u64::MAX as f64).to_bits()),
        }))
    );
    assert_eq!(
        parse_json_text("1.5"),
        Some(double(1.5))
    );
    assert_eq!(
        parse_json_text("1.0"),
        Some(double(1.0))
    );
    assert_eq!(
        parse_json_text("1e2"),
        Some(double(100.0))
    );
}

#[test]
fn arrays_are_read_in_order() {
    assert_eq!(parse_json_text("[]"), Some(WireValue::Array(vec![])));
    assert_eq!(
        parse_json_text("[101,102]"),
        Some(WireValue::Array(vec![whole(101), whole(102)]))
    );
    assert_eq!(
        parse_json_text("[1, \"2\", null, [true]]"),
        Some(WireValue::Array(vec![
            whole(1),
            text("2"),
            WireValue::Null,
            WireValue::Array(vec![WireValue::Bool(true)]),
        ]))
    );
}

#[test]
fn objects_are_read_with_their_members() {
    assert_eq!(parse_json_text("{}"), Some(WireValue::Object(vec![])));
    assert_eq!(
        parse_json_text("{\"id\": 3, \"name\": \"x\"}"),
        Some(WireValue::Object(vec![
            ("id".to_string(), whole(3)),
            ("name".to_string(), text("x")),
        ]))
    );
    assert_eq!(
        parse_json_text("{\"a\": {\"b\": [1]}}"),
        Some(WireValue::Object(vec![(
            "a".to_string(),
            WireValue::Object(vec![("b".to_string(), WireValue::Array(vec![whole(1)]))]),
        )]))
    );
}

#[test]
fn string_escapes_are_resolved() {
    assert_eq!(parse_json_text("\"a\\n\\u56db\""), Some(text("a\n四")));
}

#[test]
fn what_is_not_json_is_refused() {
    for bad in ["", " ", "[", "[1,]", "{\"a\"}", "{\"a\":}", "nul", "'a'", "1 2", "[101,102", "01"] {
        assert_eq!(parse_json_text(bad), None, "on {:?}", bad);
    }
}

#[test]
fn an_integer_beyond_both_ranges_has_no_integer_reading() {
    assert_eq!(parse_json_text("100000000000000000000"), Some(double(1e20)));
    assert_eq!(parse_json_text("-9223372036854775809"), Some(double(-9223372036854775809.0)));
}

#[test]
fn a_small_integer_has_all_three_readings() {
    assert_eq!(
        parse_json_text("5"),
        Some(WireValue::Number(WireNumber {
            signed: Some(5),
            unsigned: Some(5),
            bits: Some(5.0f64.to_bits()),
        }))
    );
    assert_eq!(
        parse_json_text("-5"),
        Some(WireValue::Number(WireNumber {
            signed: Some(-5),
            unsigned: None,
            bits: Some((-5.0f64).to_bits()),
        }))
    );
}

#[test]
fn a_document_read_from_text_holds_no_key_twice() {
    let document = parse_json_text("{\"a\": 1, \"a\": 2, \"b\": [{\"c\": 1, \"c\": {}}]}").unwrap();
    assert!(document.is_well_formed());
    assert_eq!(
        document,
        WireValue::Object(vec![
            ("a".to_string(), whole(2)),
            (
                "b".to_string(),
                WireValue::Array(vec![WireValue::Object(vec![(
                    "c".to_string(),
                    WireValue::Object(vec![]),
                )])]),
            ),
        ])
    );
}
