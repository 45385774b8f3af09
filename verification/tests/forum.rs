use xdnmb_rs::error::{DecodeError, RecordKind};
use xdnmb_rs::forum::{
    decode_forum_list, decode_timeline_list, Forum, ForumGroup, TimelineForum,
};
use xdnmb_rs::json_text::parse_json_text;
use xdnmb_rs::scalar::{SNBool, SNum};
use xdnmb_rs::wire::{WireNumber, WireValue};

fn json(source: &str) -> WireValue {
    match parse_json_text(source) {
        Some(value) => value,
        None => panic!("not JSON: {}", source),
    }
}

fn text(s: &str) -> WireValue {
    WireValue::String(s.to_string())
}

/// An integer as the reader of a text hands it over.
fn whole(n: i64) -> WireValue {
    WireValue::Number(WireNumber {
        signed: Some(n),
        unsigned: u64::try_from(n).ok(),
        bits: Some((n as f64).to_bits()),
    })
}

/// A number without an integer reading, as the reader of a text hands it over.
fn double(x: f64) -> WireValue {
    WireValue::Number(WireNumber { signed: None, unsigned: None, bits: Some(x.to_bits()) })
}

/// An integer as the library writes it.
fn written(n: i64) -> WireValue {
    WireValue::Number(WireNumber::from_i64(n))
}

fn plain_forum(fid: i64, name: &str) -> Forum {
    Forum {
        fid: SNum::new(fid),
        msg: "<p>rules</p>".to_string(),
        name: name.to_string(),
        auto_delete: None,
        created_at: None,
        fgroup: None,
        forum_fuse_id: None,
        interval: None,
        permission_level: None,
        safe_mode: None,
        show_name: None,
        sort: None,
        status: None,
        thread_count: None,
        update_at: None,
    }
}

#[test]
fn a_forum_is_decoded_from_mixed_encodings() {
    let document = json(
        "{\"id\": \"4\", \"fgroup\": \"4\", \"sort\": \"2\", \"name\": \"综合版1\", \"showName\": \"\", \
         \"msg\": \"<p>rules</p>\", \"interval\": \"30\", \"safe_mode\": \"0\", \"auto_delete\": \"0\", \
         \"thread_count\": \"92\", \"permission_level\": \"0\", \"forum_fuse_id\": \"0\", \
         \"createdAt\": \"2011-10-21 15:49:28\", \"updateAt\": \"2015-06-23 17:26:28\", \"status\": \"n\"}",
    );
    let expected = Forum {
        fid: SNum::new(4),
        msg: "<p>rules</p>".to_string(),
        name: "综合版1".to_string(),
        auto_delete: Some(SNBool::new(false)),
        created_at: Some("2011-10-21 15:49:28".to_string()),
        fgroup: Some(SNum::new(4)),
        forum_fuse_id: Some(SNum::new(0)),
        interval: Some(SNum::new(30)),
        permission_level: Some(SNBool::new(false)),
        safe_mode: Some(SNBool::new(false)),
        show_name: Some(String::new()),
        sort: Some(SNum::new(2)),
        status: Some("n".to_string()),
        thread_count: Some(SNum::new(92)),
        update_at: Some("2015-06-23 17:26:28".to_string()),
    };
    assert_eq!(Forum::decode(&document), Ok(expected));
}

#[test]
fn a_forum_needs_only_its_three_required_keys() {
    let document = json("{\"id\": -1, \"name\": \"时间线\", \"msg\": \"<p>rules</p>\"}");
    assert_eq!(Forum::decode(&document), Ok(plain_forum(-1, "时间线")));
}

#[test]
fn a_forum_reports_its_failures() {
    assert_eq!(
        Forum::decode(&json("{\"id\": 1, \"name\": \"n\"}")),
        Err(DecodeError::MissingRequiredField {
            record: RecordKind::Forum,
            field: "msg".to_string(),
        })
    );
    assert_eq!(
        Forum::decode(&json("{\"id\": 1.5, \"name\": \"n\", \"msg\": \"\"}")),
        Err(DecodeError::FieldDecodeFailure {
            record: RecordKind::Forum,
            field: "id".to_string(),
            raw: double(1.5),
            cause: Box::new(DecodeError::NumberOutOfRange),
        })
    );
    assert_eq!(
        Forum::decode(&json("{\"id\": 1, \"name\": \"n\", \"msg\": \"\", \"safe_mode\": 2}")),
        Err(DecodeError::FieldDecodeFailure {
            record: RecordKind::Forum,
            field: "safe_mode".to_string(),
            raw: whole(2),
            cause: Box::new(DecodeError::BooleanOutOfRange),
        })
    );
    assert_eq!(
        Forum::decode(&json("{\"id\": 1, \"name\": \"n\", \"msg\": \"\", \"safe_mode\": 0.5}")),
        Err(DecodeError::FieldDecodeFailure {
            record: RecordKind::Forum,
            field: "safe_mode".to_string(),
            raw: double(0.5),
            cause: Box::new(DecodeError::UnsupportedShape),
        })
    );
    assert_eq!(
        Forum::decode(&json("{\"id\": 1, \"name\": \"n\", \"msg\": \"\", \"createdAt\": 5}")),
        Err(DecodeError::FieldDecodeFailure {
            record: RecordKind::Forum,
            field: "createdAt".to_string(),
            raw: whole(5),
            cause: Box::new(DecodeError::UnsupportedShape),
        })
    );
    assert_eq!(Forum::decode(&text("forum")), Err(DecodeError::UnsupportedShape));
}

#[test]
fn a_forum_group_owns_its_forums_in_order() {
    let document = json(
        "{\"id\": \"4\", \"sort\": 1, \"name\": \"综合\", \"status\": \"n\", \"forums\": [\
         {\"id\": 4, \"name\": \"a\", \"msg\": \"<p>rules</p>\"}, \
         {\"id\": \"20\", \"name\": \"b\", \"msg\": \"<p>rules</p>\"}]}",
    );
    let expected = ForumGroup {
        forums: vec![plain_forum(4, "a"), plain_forum(20, "b")],
        id: SNum::new(4),
        name: "综合".to_string(),
        sort: SNum::new(1),
        status: "n".to_string(),
    };
    assert_eq!(ForumGroup::decode(&document), Ok(expected));
}

#[test]
fn a_forum_group_reports_a_failure_inside_a_forum_under_its_field() {
    let forums = "[{\"id\": 4, \"name\": \"a\", \"msg\": \"\"}, {\"id\": 5, \"msg\": \"\"}]";
    let document = json(&format!(
        "{{\"id\": 1, \"sort\": 1, \"name\": \"g\", \"status\": \"n\", \"forums\": {}}}",
        forums
    ));
    assert_eq!(
        ForumGroup::decode(&document),
        Err(DecodeError::FieldDecodeFailure {
            record: RecordKind::ForumGroup,
            field: "forums".to_string(),
            raw: json(forums),
            cause: Box::new(DecodeError::MissingRequiredField {
                record: RecordKind::Forum,
                field: "name".to_string(),
            }),
        })
    );
}

#[test]
fn a_forum_group_requires_every_key() {
    assert_eq!(
        ForumGroup::decode(&json("{\"id\": 1, \"sort\": 1, \"name\": \"g\", \"status\": \"n\"}")),
        Err(DecodeError::MissingRequiredField {
            record: RecordKind::ForumGroup,
            field: "forums".to_string(),
        })
    );
    assert_eq!(
        ForumGroup::decode(&json("{\"forums\": [], \"sort\": 1, \"name\": \"g\", \"status\": \"n\"}")),
        Err(DecodeError::MissingRequiredField {
            record: RecordKind::ForumGroup,
            field: "id".to_string(),
        })
    );
    assert_eq!(
        ForumGroup::decode(&json(
            "{\"forums\": \"\", \"id\": 1, \"sort\": 1, \"name\": \"g\", \"status\": \"n\"}"
        )),
        Err(DecodeError::FieldDecodeFailure {
            record: RecordKind::ForumGroup,
            field: "forums".to_string(),
            raw: text(""),
            cause: Box::new(DecodeError::UnsupportedShape),
        })
    );
}

#[test]
fn a_timeline_is_decoded() {
    let document = json(
        "{\"id\": 1, \"name\": \"综合线\", \"display_name\": \"综合线\", \"notice\": \"\", \"max_page\": \"20\"}",
    );
    let expected = TimelineForum {
        tid: SNum::new(1),
        name: "综合线".to_string(),
        display_name: "综合线".to_string(),
        notice: String::new(),
        max_page: SNum::new(20),
    };
    assert_eq!(TimelineForum::decode(&document), Ok(expected));
    assert_eq!(
        TimelineForum::decode(&json("{\"id\": 1, \"name\": \"a\", \"notice\": \"\"}")),
        Err(DecodeError::MissingRequiredField {
            record: RecordKind::TimelineForum,
            field: "display_name".to_string(),
        })
    );
}

#[test]
fn forum_records_written_and_decoded_again_are_the_same() {
    let mut forum = plain_forum(7, "f");
    forum.auto_delete = Some(SNBool::new(true));
    forum.created_at = Some(String::new());
    forum.interval = Some(SNum::new(30));
    forum.status = Some("n".to_string());
    assert_eq!(Forum::decode(&forum.encode()), Ok(forum.clone()));
    assert_eq!(Forum::decode(&plain_forum(1, "").encode()), Ok(plain_forum(1, "")));
    let group = ForumGroup {
        forums: vec![forum, plain_forum(8, "g")],
        id: SNum::new(1),
        name: "group".to_string(),
        sort: SNum::new(-2),
        status: String::new(),
    };
    assert_eq!(ForumGroup::decode(&group.encode()), Ok(group));
    let timeline = TimelineForum {
        tid: SNum::new(2),
        name: "t".to_string(),
        display_name: "T".to_string(),
        notice: "<b>n</b>".to_string(),
        max_page: SNum::new(50),
    };
    assert_eq!(TimelineForum::decode(&timeline.encode()), Ok(timeline));
}

#[test]
fn a_written_timeline_has_its_five_members() {
    let timeline = TimelineForum {
        tid: SNum::new(2),
        name: "t".to_string(),
        display_name: "T".to_string(),
        notice: String::new(),
        max_page: SNum::new(50),
    };
    assert_eq!(
        timeline.encode(),
        WireValue::Object(vec![
            ("id".to_string(), written(2)),
            ("name".to_string(), text("t")),
            ("display_name".to_string(), text("T")),
            ("notice".to_string(), text("")),
            ("max_page".to_string(), written(50)),
        ])
    );
}

#[test]
fn listings_are_decoded_in_order() {
    let groups = json(
        "[{\"id\": 1, \"sort\": 1, \"name\": \"g\", \"status\": \"n\", \"forums\": []}, \
         {\"id\": 2, \"sort\": 2, \"name\": \"h\", \"status\": \"n\", \"forums\": []}]",
    );
    let decoded = decode_forum_list(&groups).unwrap();
    assert_eq!(decoded.len(), 2);
    assert_eq!(decoded[0].id, SNum::new(1));
    assert_eq!(decoded[1].name, "h");
    assert_eq!(decode_forum_list(&json("{}")), Err(DecodeError::UnsupportedShape));
    let timelines = json(
        "[{\"id\": 1, \"name\": \"a\", \"display_name\": \"A\", \"notice\": \"\", \"max_page\": 3}]",
    );
    let decoded = decode_timeline_list(&timelines).unwrap();
    assert_eq!(decoded.len(), 1);
    assert_eq!(decoded[0].max_page.into_inner(), 3);
    assert_eq!(
        decode_timeline_list(&json("[{\"id\": 1}, 5]")),
        Err(DecodeError::MissingRequiredField {
            record: RecordKind::TimelineForum,
            field: "name".to_string(),
        })
    );
}
