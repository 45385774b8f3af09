use xdnmb_rs::encode::{
    encode_flag, encode_integer, encode_integer_list, encode_optional_flag,
    encode_optional_integer, encode_optional_integer_list, encode_optional_text, encode_text,
    member_of,
};
use xdnmb_rs::scalar::{SNBool, SNum};
use xdnmb_rs::wire::{WireNumber, WireValue};

/// An integer as the library writes it.
fn whole(n: i64) -> WireValue {
    WireValue::Number(WireNumber::from_i64(n))
}

#[test]
fn a_written_integer_has_its_integer_readings_and_no_bits() {
    assert_eq!(
        WireNumber::from_i64(-3),
        WireNumber { signed: Some(-3), unsigned: None, bits: None }
    );
    assert_eq!(
        WireNumber::from_i64(3),
        WireNumber { signed: Some(3), unsigned: Some(3), bits: None }
    );
    assert_eq!(
        WireNumber::from_i64(0),
        WireNumber { signed: Some(0), unsigned: Some(0), bits: None }
    );
    assert_eq!(
        WireNumber::from_i64(i64::MAX),
        WireNumber { signed: Some(i64::MAX), unsigned: Some(i64::MAX as u64), bits: None }
    );
}

#[test]
fn a_copy_of_a_document_equals_it() {
    let document = WireValue::Object(vec![
        ("a".to_string(), WireValue::Array(vec![whole(1), WireValue::Null])),
        ("b".to_string(), WireValue::String("x".to_string())),
        ("c".to_string(), WireValue::Object(vec![("d".to_string(), WireValue::Bool(true))])),
    ]);
    assert_eq!(document.duplicate(), document);
    assert_eq!(document.clone(), document);
    assert_eq!(WireValue::Null.duplicate(), WireValue::Null);
}

#[test]
fn canonical_values_are_written_in_their_native_kind() {
    assert_eq!(encode_integer(SNum::new(-5)), whole(-5));
    assert_eq!(encode_flag(SNBool::new(true)), WireValue::Bool(true));
    assert_eq!(encode_text(&"t".to_string()), WireValue::String("t".to_string()));
    assert_eq!(encode_optional_integer(None), WireValue::Null);
    assert_eq!(encode_optional_integer(Some(SNum::new(1))), whole(1));
    assert_eq!(encode_optional_flag(None), WireValue::Null);
    assert_eq!(encode_optional_flag(Some(SNBool::new(false))), WireValue::Bool(false));
    assert_eq!(encode_optional_text(&None), WireValue::Null);
    assert_eq!(
        encode_optional_text(&Some(String::new())),
        WireValue::String(String::new())
    );
    assert_eq!(
        encode_integer_list(&vec![SNum::new(1), SNum::new(2)]),
        WireValue::Array(vec![whole(1), whole(2)])
    );
    assert_eq!(encode_optional_integer_list(&None), WireValue::Null);
    assert_eq!(encode_optional_integer_list(&Some(vec![])), WireValue::Array(vec![]));
    assert_eq!(member_of("k", whole(1)), ("k".to_string(), whole(1)));
}

#[test]
fn a_document_is_well_formed_where_no_object_holds_a_key_twice() {
    let plain = WireValue::Object(vec![
        ("a".to_string(), whole(1)),
        ("b".to_string(), WireValue::Array(vec![WireValue::Object(vec![("a".to_string(), whole(2))])])),
    ]);
    assert!(plain.is_well_formed());
    assert!(WireValue::Null.is_well_formed());
    assert!(WireValue::Array(vec![]).is_well_formed());
    assert!(WireValue::Object(vec![]).is_well_formed());
    let twice = WireValue::Object(vec![
        ("a".to_string(), whole(1)),
        ("b".to_string(), whole(2)),
        ("a".to_string(), whole(1)),
    ]);
    assert!(!twice.is_well_formed());
    let nested = WireValue::Array(vec![whole(1), WireValue::Object(vec![("k".to_string(), twice)])]);
    assert!(!nested.is_well_formed());
}
