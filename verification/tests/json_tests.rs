use targeted_vector::codec::{depth_within, json_to_string, parse_json, parse_safe_text, pretty_json, JsonParseError};
use targeted_vector::json::{JsonNode, JsonNumber};

fn doc(text: &str) -> JsonNode {
    parse_json(text).unwrap()
}

#[test]
fn parse_reads_objects_and_arrays() {
    let d = doc(r#"{"a": "x", "b": [1, true, null], "c": {"d": -3}}"#);
    assert_eq!(d.str_field("a"), Some("x".to_string()));
    let b = d.array_field("b").unwrap();
    assert_eq!(b.len(), 3);
    assert_eq!(b[0].as_u8(), Some(1));
    assert_eq!(b[1].as_bool(), Some(true));
    assert!(matches!(b[2], JsonNode::Null));
    let c = d.get("c").unwrap();
    assert_eq!(c.i8_field("d"), Some(-3));
    assert!(d.get("missing").is_none());
}

#[test]
fn parse_reports_unexpected_character() {
    assert!(matches!(parse_json("{\"a\" 1}"), Err(JsonParseError::UnexpectedCharacter { ch: '1', .. })));
}

#[test]
fn parse_reports_unexpected_end() {
    assert_eq!(parse_json("[1, 2").err(), Some(JsonParseError::UnexpectedEndOfJson));
}

#[test]
fn parse_reports_depth_limit() {
    let text = "[".repeat(600) + &"]".repeat(600);
    assert_eq!(parse_json(&text).err(), Some(JsonParseError::ExceededDepthLimit));
}

#[test]
fn parse_reports_broken_surrogate() {
    assert_eq!(parse_json(r#""\ud800\u0041""#).err(), Some(JsonParseError::FailedUtf8Parsing));
}

#[test]
fn numbers_keep_sign_mantissa_and_exponent() {
    let d = doc("[5, -7, 2.5, 5.0, 1e2]");
    let a = d.as_array().unwrap();
    match &a[0] {
        JsonNode::Number(n) => assert_eq!(*n, JsonNumber { positive: true, mantissa: 5, exponent: 0 }),
        _ => panic!("not a number"),
    }
    match &a[2] {
        JsonNode::Number(n) => assert_eq!(*n, JsonNumber { positive: true, mantissa: 25, exponent: -1 }),
        _ => panic!("not a number"),
    }
    assert_eq!(a[1].as_i8(), Some(-7));
    assert_eq!(a[1].as_u8(), None);
    assert_eq!(a[2].as_u32(), None);
    // A whole number written with a fraction is no integer for the reader.
    assert_eq!(a[3].as_u8(), None);
    assert_eq!(a[4].as_u32(), None);
}

#[test]
fn integer_readers_check_their_range() {
    let a = doc("[255, 256, 127, 128, -128, -129, 4294967295, 4294967296, 2147483647, -2147483648, -2147483649]");
    let a = a.as_array().unwrap();
    assert_eq!(a[0].as_u8(), Some(255));
    assert_eq!(a[1].as_u8(), None);
    assert_eq!(a[2].as_i8(), Some(127));
    assert_eq!(a[3].as_i8(), None);
    assert_eq!(a[4].as_i8(), Some(-128));
    assert_eq!(a[5].as_i8(), None);
    assert_eq!(a[6].as_u32(), Some(4294967295));
    assert_eq!(a[7].as_u32(), None);
    assert_eq!(a[8].as_i32(), Some(2147483647));
    assert_eq!(a[9].as_i32(), Some(-2147483648));
    assert_eq!(a[10].as_i32(), None);
}

#[test]
fn number_constructors() {
    assert_eq!(JsonNumber::from_u64(9), JsonNumber { positive: true, mantissa: 9, exponent: 0 });
    assert_eq!(JsonNumber::from_i64(-4), JsonNumber { positive: false, mantissa: 4, exponent: 0 });
    assert_eq!(JsonNumber::from_i64(0), JsonNumber { positive: true, mantissa: 0, exponent: 0 });
    assert_eq!(JsonNumber { positive: false, mantissa: 4, exponent: 0 }.as_i64(), Some(-4));
    assert_eq!(JsonNumber { positive: true, mantissa: 4, exponent: 1 }.as_u64(), None);
}

#[test]
fn first_member_of_a_key_wins() {
    let d = JsonNode::Object(vec![
        ("k".to_string(), JsonNode::Bool(true)),
        ("k".to_string(), JsonNode::Bool(false)),
    ]);
    assert_eq!(d.bool_field("k"), Some(true));
}

#[test]
fn indexing_a_non_object_gives_nothing() {
    let d = doc("[1]");
    assert!(d.get("a").is_none());
    assert_eq!(d.str_field("a"), None);
    assert!(d.array_field("a").is_none());
}

#[test]
fn pretty_text_is_indented_by_four() {
    let d = doc(r#"{"a":1,"b":[true]}"#);
    assert_eq!(pretty_json(&d), "{\n    \"a\": 1,\n    \"b\": [\n        true\n    ]\n}");
}

#[test]
fn pretty_text_reads_back() {
    let d = doc(r#"{"name":"x\"y","n":-12,"list":[1,2,{"z":null}]}"#);
    let again = doc(&pretty_json(&d));
    assert_eq!(pretty_json(&again), pretty_json(&d));
}

#[test]
fn display_writes_strings_bare() {
    assert_eq!(json_to_string(&JsonNode::Str("plain text".to_string())), "plain text");
    assert_eq!(json_to_string(&JsonNode::Null), "null");
    assert_eq!(json_to_string(&JsonNode::Bool(true)), "true");
    assert_eq!(json_to_string(&doc("[1,2]")), "[1,2]");
}

#[test]
fn long_fractions_are_refused_before_parsing() {
    let fine = format!("[0.{}]", "0".repeat(32768));
    assert!(parse_safe_text(&fine));
    let long = format!("[0.{}]", "0".repeat(32769));
    assert!(!parse_safe_text(&long));
    let in_string = format!("[\"0.{}\"]", "0".repeat(40000));
    assert!(parse_safe_text(&in_string));
    let escaped = format!("[\"\\\"\", 0.{}]", "0".repeat(40000));
    assert!(!parse_safe_text(&escaped));
    assert!(parse_safe_text("{\"a\": 1.5, \"b\": [2.25]}"));
    let significant = format!("[0.{}]", "1".repeat(40000));
    assert!(parse_safe_text(&significant));
    assert!(parse_json(&significant).is_ok());
    let one_then_zeros = format!("[1.{}e5]", "0".repeat(40000));
    assert!(parse_safe_text(&one_then_zeros));
    let late = format!("[-0.{}1]", "0".repeat(32767));
    assert!(parse_safe_text(&late));
    let later = format!("[-0.{}1]", "0".repeat(32768));
    assert!(!parse_safe_text(&later));
    assert!(parse_json(&fine).is_ok());
}

#[test]
fn nesting_depth_for_pretty_printing() {
    let flat = parse_json("[1, 2, {}]").unwrap();
    assert!(depth_within(&flat, 1));
    assert!(!depth_within(&flat, 0));
    let nested = parse_json("{\"a\": [[], [1, {\"b\": [true]}]]}").unwrap();
    assert!(depth_within(&nested, 5));
    assert!(!depth_within(&nested, 4));
    let empty = parse_json("[]").unwrap();
    assert!(depth_within(&empty, 0));
    assert_eq!(pretty_json(&empty), "[]");
}
