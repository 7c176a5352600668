use srill::attributes::MessageAttributes;
use srill::digest::{md5_hex, to_hex};
use srill::json::{parse_json, Json, Member};
use srill::message::{
    build_event, decode_attribute, decode_attributes, find_member, message_attributes,
    message_from_parts, read_message,
};
use srill::mode::{
    MessageAttribute, MessageAttributeDataType, Mode, SqsEvent, SqsRecord, SqsRecordAttributes,
};

fn member(key: &str, value: Json) -> Member {
    Member { key: key.to_string(), value }
}

fn text(value: &str) -> Json {
    Json::String(value.to_string())
}

fn is_identifier(id: &str) -> bool {
    let chars: Vec<char> = id.chars().collect();
    chars.len() == 36
        && chars.iter().enumerate().all(|(i, c)| match i {
            8 | 13 | 18 | 23 => *c == '-',
            _ => matches!(c, '0'..='9' | 'a'..='f'),
        })
        && chars[14] == '4'
        && matches!(chars[19], '8' | '9' | 'a' | 'b')
}

#[test]
fn digest_of_hello_is_the_known_one() {
    assert_eq!(md5_hex("hello"), "5d41402abc4b2a76b9719d911017c592");
}

#[test]
fn digest_of_nothing_is_the_known_one() {
    assert_eq!(md5_hex(""), "d41d8cd98f00b204e9800998ecf8427e");
}

#[test]
fn digest_is_taken_over_the_utf8_bytes() {
    assert_eq!(md5_hex("é"), format!("{:x}", md5::compute([0xc3u8, 0xa9u8])));
    assert_ne!(md5_hex("hello"), "hello");
}

#[test]
fn hexadecimal_has_two_lower_case_digits_per_byte() {
    assert_eq!(to_hex(&[]), "");
    assert_eq!(to_hex(&[0x00, 0x0f, 0xa0, 0xff, 0x5d]), "000fa0ff5d");
}

#[test]
fn record_carries_the_fixed_source() {
    let record = SqsRecord::new("hello", MessageAttributes::new());
    assert_eq!(record.body, "hello");
    assert_eq!(record.md5_of_body, "5d41402abc4b2a76b9719d911017c592");
    assert_eq!(record.event_source_arn, "arn:aws:sqs:ap-northeast-1:123456789012:SQSQueue");
    assert_eq!(record.event_source, "aws:sqs");
    assert_eq!(record.aws_region, "ap-northeast-1");
    assert_eq!(record.attributes.approximate_receive_count, "0");
    assert_eq!(record.attributes.sender_id, "sender");
    assert_eq!(record.attributes.sent_timestamp, "1520621625029");
    assert_eq!(record.attributes.approximate_first_receive_timestamp, "1520621634884");
    assert!(record.message_attributes.is_empty());
    assert!(is_identifier(&record.message_id));
    assert!(is_identifier(&record.receipt_handle));
    assert_ne!(record.message_id, record.receipt_handle);
}

#[test]
fn default_receive_attributes_are_fixed() {
    let a = SqsRecordAttributes::default();
    assert_eq!(a.approximate_receive_count, "0");
    assert_eq!(a.sender_id, "sender");
    assert_eq!(a.sent_timestamp, "1520621625029");
    assert_eq!(a.approximate_first_receive_timestamp, "1520621634884");
}

#[test]
fn record_with_given_identifiers_keeps_them() {
    let record =
        SqsRecord::with_identifiers("m".to_string(), "r".to_string(), "b", MessageAttributes::new());
    assert_eq!(record.message_id, "m");
    assert_eq!(record.receipt_handle, "r");
    assert_eq!(record.body, "b");
    assert_eq!(record.md5_of_body, "92eb5ffee6ae2fec3ad71c777531578f");
}

#[test]
fn event_holds_one_record() {
    let event = SqsEvent::new("hello", MessageAttributes::new());
    assert_eq!(event.records.len(), 1);
    assert_eq!(event.records[0].body, "hello");
}

#[test]
fn body_and_digest_are_the_same_for_the_same_message() {
    let raw = r#"{"message_attributes":{"k":{"data_type":"Number","string_value":"1"}},"x":[1,2]}"#;
    let a = build_event(raw, Mode::Sqs);
    let b = build_event(raw, Mode::Sqs);
    assert_eq!(a.records[0].body, b.records[0].body);
    assert_eq!(a.records[0].md5_of_body, b.records[0].md5_of_body);
    assert_eq!(a.records[0].md5_of_body, md5_hex(&a.records[0].body));
    assert_eq!(a.records[0].message_attributes.len(), b.records[0].message_attributes.len());
}

#[test]
fn identifiers_are_fresh_for_every_event() {
    let a = build_event("same", Mode::Sqs);
    let b = build_event("same", Mode::Sqs);
    assert_ne!(a.records[0].message_id, b.records[0].message_id);
    assert_ne!(a.records[0].receipt_handle, b.records[0].receipt_handle);
    assert_ne!(a.records[0].message_id, a.records[0].receipt_handle);
    assert_ne!(a.records[0].message_id, b.records[0].receipt_handle);
    assert!(is_identifier(&a.records[0].message_id));
    assert!(is_identifier(&b.records[0].receipt_handle));
}

#[test]
fn object_with_attributes_is_delivered_whole() {
    let raw = r#"{"message_attributes":{"k":{"data_type":"String","string_value":"v"}},"x":1}"#;
    let event = build_event(raw, Mode::Sqs);
    assert_eq!(event.records.len(), 1);
    let record = &event.records[0];
    assert_eq!(record.body, raw);
    assert_eq!(record.md5_of_body, md5_hex(raw));
    assert_eq!(record.message_attributes.len(), 1);
    let k = record.message_attributes.get("k").unwrap();
    assert_eq!(k.data_type, MessageAttributeDataType::String);
    assert_eq!(k.string_value.as_deref(), Some("v"));
    assert_eq!(k.binary_value, None);
    assert_eq!(k.string_list_values, None);
    assert_eq!(k.binary_list_values, None);
}

#[test]
fn text_that_is_no_json_is_delivered_as_it_came() {
    let event = build_event("not json", Mode::Sqs);
    let record = &event.records[0];
    assert_eq!(record.body, "not json");
    assert!(record.message_attributes.is_empty());
    assert_eq!(record.md5_of_body, md5_hex("not json"));
}

#[test]
fn json_that_is_no_object_is_delivered_as_it_came() {
    for raw in ["[1, 2,  3]", " 42 ", "\"text\"", "null", "true", "[{\"message_attributes\":{}}]"] {
        let message = read_message(raw);
        assert_eq!(message.body, raw);
        assert!(message.message_attributes.is_empty());
    }
}

#[test]
fn object_is_written_again_in_compact_form() {
    let message = read_message("{ \"b\" : [1, 2.5, \"x\"],\n \"a\" : { \"n\" : null } }");
    assert_eq!(message.body, r#"{"a":{"n":null},"b":[1,2.5,"x"]}"#);
    assert!(message.message_attributes.is_empty());
}

#[test]
fn empty_message_is_delivered_as_it_came() {
    let message = read_message("");
    assert_eq!(message.body, "");
    assert!(message.message_attributes.is_empty());
}

#[test]
fn truncated_object_is_delivered_as_it_came() {
    let message = read_message("{\"a\":1");
    assert_eq!(message.body, "{\"a\":1");
    assert!(message.message_attributes.is_empty());
}

#[test]
fn all_value_forms_are_read() {
    let raw = r#"{"message_attributes":{
        "s":{"data_type":"String","string_value":"v"},
        "n":{"data_type":"Number","string_value":"12","binary_value":null},
        "b":{"data_type":"Binary","binary_value":"AAEC","binary_list_values":["AA==","AQ=="]},
        "l":{"data_type":"String","string_list_values":["x","y"],"extra":7}
    }}"#;
    let attributes = read_message(raw).message_attributes;
    assert_eq!(attributes.len(), 4);
    let n = attributes.get("n").unwrap();
    assert_eq!(n.data_type, MessageAttributeDataType::Number);
    assert_eq!(n.string_value.as_deref(), Some("12"));
    assert_eq!(n.binary_value, None);
    let b = attributes.get("b").unwrap();
    assert_eq!(b.data_type, MessageAttributeDataType::Binary);
    assert_eq!(b.binary_value.as_deref(), Some("AAEC"));
    assert_eq!(b.binary_list_values, Some(vec!["AA==".to_string(), "AQ==".to_string()]));
    assert_eq!(b.string_value, None);
    let l = attributes.get("l").unwrap();
    assert_eq!(l.string_list_values, Some(vec!["x".to_string(), "y".to_string()]));
    assert!(attributes.get("missing").is_none());
}

#[test]
fn one_malformed_attribute_drops_them_all() {
    for raw in [
        r#"{"message_attributes":{"bad":{"data_type":"Text"},"good":{"data_type":"String"}}}"#,
        r#"{"message_attributes":{"bad":{"string_value":"v"},"good":{"data_type":"String"}}}"#,
        r#"{"message_attributes":{"bad":{"data_type":"String","string_value":1},"good":{"data_type":"String"}}}"#,
        r#"{"message_attributes":{"bad":{"data_type":"String","string_list_values":["a",2]},"good":{"data_type":"String"}}}"#,
        r#"{"message_attributes":{"bad":{"binary_value":[],"data_type":"String"},"good":{"data_type":"String"}}}"#,
        r#"{"message_attributes":{"bad":{"binary_list_values":"x","data_type":"String"},"good":{"data_type":"String"}}}"#,
        r#"{"message_attributes":{"bad":"String","good":{"data_type":"String"}}}"#,
        r#"{"message_attributes":{"bad":{"data_type":null},"good":{"data_type":"String"}}}"#,
        r#"{"message_attributes":{"good":{"data_type":"String"},"worse":{"dataType":"String"}}}"#,
    ] {
        let message = read_message(raw);
        assert!(message.message_attributes.is_empty(), "{}", raw);
        assert_eq!(message.body, raw);
    }
}

#[test]
fn attributes_that_are_no_object_are_dropped() {
    for raw in [
        r#"{"message_attributes":null,"x":1}"#,
        r#"{"message_attributes":[],"x":1}"#,
        r#"{"message_attributes":"k","x":1}"#,
        r#"{"x":1}"#,
        r#"{}"#,
    ] {
        let message = read_message(raw);
        assert!(message.message_attributes.is_empty());
        assert_eq!(message.body, raw);
    }
}

#[test]
fn empty_attributes_are_no_attributes() {
    let message = read_message(r#"{"message_attributes":{}}"#);
    assert_eq!(message.message_attributes.len(), 0);
    assert_eq!(message.body, r#"{"message_attributes":{}}"#);
}

#[test]
fn attribute_tree_is_decoded_by_hand() {
    let value = Json::Object(vec![
        member("data_type", text("Binary")),
        member("binary_value", text("AA==")),
        member("string_value", Json::Null),
        member("unknown", Json::Bool(true)),
    ]);
    let attribute = decode_attribute(&value).unwrap();
    assert_eq!(attribute.data_type, MessageAttributeDataType::Binary);
    assert_eq!(attribute.binary_value.as_deref(), Some("AA=="));
    assert_eq!(attribute.string_value, None);
    assert!(decode_attribute(&Json::Array(vec![text("String")])).is_none());
    assert!(decode_attribute(&Json::Object(vec![])).is_none());
    assert!(decode_attribute(&Json::Object(vec![member("data_type", Json::Number("1".to_string()))]))
        .is_none());
}

#[test]
fn last_member_under_a_key_counts() {
    let members = vec![
        member("data_type", text("String")),
        member("k", text("first")),
        member("data_type", text("Number")),
    ];
    assert!(matches!(find_member(&members, "k"), Some(Json::String(s)) if s == "first"));
    assert!(matches!(find_member(&members, "data_type"), Some(Json::String(s)) if s == "Number"));
    assert!(find_member(&members, "K").is_none());
    let attribute = decode_attribute(&Json::Object(members)).unwrap();
    assert_eq!(attribute.data_type, MessageAttributeDataType::Number);
    let entries = vec![
        member("a", Json::Object(vec![member("data_type", text("String"))])),
        member("a", Json::Object(vec![member("data_type", text("Binary"))])),
    ];
    let attributes = decode_attributes(&entries).unwrap();
    assert_eq!(attributes.len(), 1);
    assert_eq!(attributes.get("a").unwrap().data_type, MessageAttributeDataType::Binary);
}

#[test]
fn attributes_are_read_from_a_tree() {
    let tree = Json::Object(vec![
        member("x", Json::Number("1".to_string())),
        member(
            "message_attributes",
            Json::Object(vec![member(
                "k",
                Json::Object(vec![
                    member("data_type", text("String")),
                    member("string_value", text("v")),
                ]),
            )]),
        ),
    ]);
    let attributes = message_attributes(&tree);
    assert_eq!(attributes.len(), 1);
    assert_eq!(attributes.get("k").unwrap().string_value.as_deref(), Some("v"));
    assert!(message_attributes(&Json::Array(vec![])).is_empty());
    assert!(message_attributes(&Json::Null).is_empty());
}

#[test]
fn message_parts_decide_what_is_delivered() {
    let tree = Json::Object(vec![member(
        "message_attributes",
        Json::Object(vec![member("k", Json::Object(vec![member("data_type", text("Number"))]))]),
    )]);
    let m = message_from_parts("raw", Some(&tree), Some("written".to_string()));
    assert_eq!(m.body, "written");
    assert_eq!(m.message_attributes.len(), 1);
    let m = message_from_parts("raw", Some(&tree), None);
    assert_eq!(m.body, "raw");
    assert!(m.message_attributes.is_empty());
    let m = message_from_parts("raw", Some(&Json::Array(vec![])), Some("written".to_string()));
    assert_eq!(m.body, "raw");
    assert!(m.message_attributes.is_empty());
    let m = message_from_parts("raw", None, Some("written".to_string()));
    assert_eq!(m.body, "raw");
    let m = message_from_parts("raw", None, None);
    assert_eq!(m.body, "raw");
    assert!(m.message_attributes.is_empty());
}

#[test]
fn parsed_tree_holds_the_document() {
    let tree = parse_json(r#"{"b":[true,null,-3,1.5e2,"s"],"a":{}}"#).unwrap();
    let members = match tree {
        Json::Object(members) => members,
        _ => panic!("an object was expected"),
    };
    assert_eq!(members.len(), 2);
    assert_eq!(members[0].key, "a");
    assert!(matches!(&members[0].value, Json::Object(m) if m.is_empty()));
    assert_eq!(members[1].key, "b");
    let items = match &members[1].value {
        Json::Array(items) => items,
        _ => panic!("an array was expected"),
    };
    assert_eq!(items.len(), 5);
    assert!(matches!(&items[0], Json::Bool(true)));
    assert!(matches!(&items[1], Json::Null));
    assert!(matches!(&items[2], Json::Number(n) if n == "-3"));
    assert!(matches!(&items[3], Json::Number(n) if n == "150.0"));
    assert!(matches!(&items[4], Json::String(s) if s == "s"));
    assert!(parse_json("not json").is_none());
    assert!(parse_json("{\"a\":1} trailing").is_none());
    assert!(matches!(parse_json("\"x\""), Some(Json::String(s)) if s == "x"));
}

#[test]
fn attributes_are_kept_by_name() {
    let plain = |data_type: MessageAttributeDataType, value: &str| MessageAttribute {
        data_type,
        binary_list_values: None,
        binary_value: None,
        string_list_values: None,
        string_value: Some(value.to_string()),
    };
    let mut attributes = MessageAttributes::new();
    assert!(attributes.is_empty());
    assert_eq!(attributes.len(), 0);
    assert!(attributes.insert("a".to_string(), plain(MessageAttributeDataType::String, "1")).is_none());
    assert!(attributes.insert("b".to_string(), plain(MessageAttributeDataType::Number, "2")).is_none());
    let previous = attributes.insert("a".to_string(), plain(MessageAttributeDataType::Binary, "3"));
    assert_eq!(previous.unwrap().string_value.as_deref(), Some("1"));
    assert_eq!(attributes.len(), 2);
    assert!(!attributes.is_empty());
    assert_eq!(attributes.get("a").unwrap().string_value.as_deref(), Some("3"));
    assert_eq!(attributes.get("a").unwrap().data_type, MessageAttributeDataType::Binary);
    assert_eq!(attributes.get("b").unwrap().string_value.as_deref(), Some("2"));
    assert!(attributes.get("c").is_none());
    let mut names: Vec<&str> = attributes.entries().iter().map(|e| e.0.as_str()).collect();
    names.sort();
    assert_eq!(names, vec!["a", "b"]);
}
