use xdnmb_rs::cookie::UserCookie;
use xdnmb_rs::error::{DecodeError, RecordKind};
use xdnmb_rs::json_text::parse_json_text;
use xdnmb_rs::wire::WireValue;

#[test]
fn cookie_keeps_its_three_texts() {
    let cookie = UserCookie::new("test", "userhash", "abc%01");
    assert_eq!(cookie.name, "test");
    assert_eq!(cookie.hash_name, "userhash");
    assert_eq!(cookie.value, "abc%01");
}

#[test]
fn a_default_cookie_is_empty() {
    assert_eq!(UserCookie::default(), UserCookie::new("", "", ""));
}

#[test]
fn a_cookie_is_read_with_its_value_under_the_key_cookie() {
    let document =
        parse_json_text("{\"name\": \"n\", \"hash_name\": \"h\", \"cookie\": \"%01%02\"}").unwrap();
    assert_eq!(UserCookie::decode(&document), Ok(UserCookie::new("n", "h", "%01%02")));
    let document = parse_json_text("{\"name\": \"n\", \"hash_name\": \"h\", \"value\": \"v\"}").unwrap();
    assert_eq!(
        UserCookie::decode(&document),
        Err(DecodeError::MissingRequiredField {
            record: RecordKind::UserCookie,
            field: "cookie".to_string(),
        })
    );
    let document = parse_json_text("{\"name\": 1, \"hash_name\": \"h\", \"cookie\": \"v\"}").unwrap();
    assert_eq!(UserCookie::decode(&document).unwrap_err().root(), &DecodeError::UnsupportedShape);
}

#[test]
fn a_cookie_written_and_decoded_again_is_the_same() {
    let cookie = UserCookie::new("test", "userhash", "abc%01");
    let written = cookie.encode();
    assert_eq!(
        written,
        WireValue::Object(vec![
            ("name".to_string(), WireValue::String("test".to_string())),
            ("hash_name".to_string(), WireValue::String("userhash".to_string())),
            ("cookie".to_string(), WireValue::String("abc%01".to_string())),
        ])
    );
    assert_eq!(UserCookie::decode(&written), Ok(cookie));
}
