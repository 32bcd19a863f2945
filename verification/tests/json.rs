use lemmy_api::json::JsonValue;
use lemmy_api::json_text::parse_json;
use lemmy_api::text::{bytes_equal, decimal, str_equal};

fn s(text: &str) -> String {
    text.to_string()
}

#[test]
fn parse_reads_the_scalars() {
    assert_eq!(parse_json("null"), Some(JsonValue::Null));
    assert_eq!(parse_json("true"), Some(JsonValue::Bool(true)));
    assert_eq!(parse_json("false"), Some(JsonValue::Bool(false)));
    assert_eq!(parse_json("0"), Some(JsonValue::Int(0)));
    assert_eq!(parse_json("-17"), Some(JsonValue::Int(-17)));
    assert_eq!(parse_json("\"shape\""), Some(JsonValue::Str(s("shape"))));
    assert_eq!(parse_json("\"\""), Some(JsonValue::Str(s(""))));
}

#[test]
fn parse_keeps_the_whole_range_of_64_bits() {
    assert_eq!(parse_json("9223372036854775807"), Some(JsonValue::Int(i64::MAX)));
    assert_eq!(parse_json("-9223372036854775808"), Some(JsonValue::Int(i64::MIN)));
}

#[test]
fn parse_keeps_other_numbers_as_text() {
    assert_eq!(parse_json("1.5"), Some(JsonValue::Number(s("1.5"))));
    assert_eq!(parse_json("18446744073709551615"), Some(JsonValue::Number(s("18446744073709551615"))));
    assert_eq!(parse_json("2.0"), Some(JsonValue::Number(s("2.0"))));
}

#[test]
fn parse_reads_arrays_in_order() {
    assert_eq!(parse_json("[]"), Some(JsonValue::Array(vec![])));
    assert_eq!(
        parse_json("[3, \"x\", null, [true]]"),
        Some(JsonValue::Array(vec![
            JsonValue::Int(3),
            JsonValue::Str(s("x")),
            JsonValue::Null,
            JsonValue::Array(vec![JsonValue::Bool(true)]),
        ]))
    );
}

#[test]
fn parse_reads_objects_with_every_member() {
    let parsed = parse_json("{\"unexpected\": \"shape\"}");
    assert_eq!(
        parsed,
        Some(JsonValue::Object(vec![(s("unexpected"), JsonValue::Str(s("shape")))]))
    );
    let parsed = parse_json("{\"b\": 1, \"a\": {\"c\": [2]}}").unwrap();
    assert_eq!(parsed.get("b"), Some(&JsonValue::Int(1)));
    assert_eq!(
        parsed.get("a"),
        Some(&JsonValue::Object(vec![(s("c"), JsonValue::Array(vec![JsonValue::Int(2)]))]))
    );
    assert_eq!(parsed.get("c"), None);
    match parsed {
        JsonValue::Object(members) => assert_eq!(members.len(), 2),
        _ => panic!("an object was written"),
    }
}

#[test]
fn parse_unescapes_strings() {
    assert_eq!(
        parse_json("\"a\\n\\\"b\\u00e9\""),
        Some(JsonValue::Str(s("a\n\"b\u{e9}")))
    );
}

#[test]
fn parse_refuses_what_is_not_json() {
    assert_eq!(parse_json(""), None);
    assert_eq!(parse_json("{"), None);
    assert_eq!(parse_json("{\"a\": }"), None);
    assert_eq!(parse_json("[1, 2"), None);
    assert_eq!(parse_json("nul"), None);
    assert_eq!(parse_json("1 2"), None);
    assert_eq!(parse_json("<html></html>"), None);
}

#[test]
fn get_finds_the_first_member_of_a_key() {
    let v = JsonValue::Object(vec![
        (s("a"), JsonValue::Int(1)),
        (s("b"), JsonValue::Int(2)),
        (s("a"), JsonValue::Int(3)),
    ]);
    assert_eq!(v.get("a"), Some(&JsonValue::Int(1)));
    assert_eq!(v.get("b"), Some(&JsonValue::Int(2)));
    assert_eq!(v.get("c"), None);
    assert_eq!(v.get(""), None);
}

#[test]
fn get_finds_nothing_outside_an_object() {
    assert_eq!(JsonValue::Null.get("a"), None);
    assert_eq!(JsonValue::Array(vec![JsonValue::Int(1)]).get("0"), None);
    assert_eq!(JsonValue::Str(s("a")).get("a"), None);
}

#[test]
fn is_object_tells_objects_from_the_rest() {
    assert!(JsonValue::Object(vec![]).is_object());
    assert!(!JsonValue::Array(vec![]).is_object());
    assert!(!JsonValue::Null.is_object());
}

#[test]
fn clone_copies_the_whole_tree() {
    let v = JsonValue::Object(vec![
        (s("a"), JsonValue::Array(vec![JsonValue::Int(1), JsonValue::Number(s("1.5"))])),
        (s("b"), JsonValue::Object(vec![(s("c"), JsonValue::Bool(false))])),
        (s("d"), JsonValue::Null),
    ]);
    assert_eq!(v.clone(), v);
}

#[test]
fn decimal_writes_integers() {
    assert_eq!(decimal(0), "0");
    assert_eq!(decimal(7), "7");
    assert_eq!(decimal(10), "10");
    assert_eq!(decimal(20), "20");
    assert_eq!(decimal(-1), "-1");
    assert_eq!(decimal(-120), "-120");
    assert_eq!(decimal(2147483647), "2147483647");
    assert_eq!(decimal(i64::MAX), "9223372036854775807");
    assert_eq!(decimal(i64::MIN), "-9223372036854775808");
}

#[test]
fn decimal_agrees_with_the_standard_library() {
    let samples: [i64; 9] = [1, 9, 11, 99, 100, 101, 1000, -999, 123456789012];
    for n in samples {
        assert_eq!(decimal(n), n.to_string());
    }
}

#[test]
fn str_equal_compares_letter_for_letter() {
    assert!(str_equal("", ""));
    assert!(str_equal("Hot", "Hot"));
    assert!(!str_equal("Hot", "hot"));
    assert!(!str_equal("Hot", "Ho"));
    assert!(!str_equal("Hot", "Hott"));
    assert!(str_equal("caf\u{e9}", "caf\u{e9}"));
    assert!(!str_equal("caf\u{e9}", "cafe"));
}

#[test]
fn bytes_equal_compares_byte_for_byte() {
    assert!(bytes_equal(&[], &[]));
    assert!(bytes_equal(&[1, 2, 3], &[1, 2, 3]));
    assert!(!bytes_equal(&[1, 2, 3], &[1, 2, 4]));
    assert!(!bytes_equal(&[1, 2, 3], &[1, 2]));
}
