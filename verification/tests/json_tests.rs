use cccs::json::{JsonMember, JsonNumber, JsonValue};
use cccs::json_parse::parse_json;

fn member(key: &str, value: JsonValue) -> JsonMember {
    JsonMember { key: key.to_string(), value }
}

fn parsed(text: &str) -> JsonValue {
    parse_json(text).unwrap()
}

#[test]
fn parses_scalars() {
    assert!(matches!(parsed("null"), JsonValue::Null));
    assert!(matches!(parsed("true"), JsonValue::Bool(true)));
    assert!(matches!(parsed("false"), JsonValue::Bool(false)));
    assert!(matches!(parsed("\"a\\nb\""), JsonValue::String(s) if s == "a\nb"));
}

#[test]
fn parses_each_kind_of_number() {
    assert!(matches!(parsed("42"), JsonValue::Number(JsonNumber::PosInt(42))));
    assert!(matches!(parsed("0"), JsonValue::Number(JsonNumber::PosInt(0))));
    assert!(matches!(
        parsed("18446744073709551615"),
        JsonValue::Number(JsonNumber::PosInt(u64::MAX))
    ));
    assert!(matches!(parsed("-3"), JsonValue::Number(JsonNumber::NegInt(-3))));
    assert!(matches!(
        parsed("-9223372036854775808"),
        JsonValue::Number(JsonNumber::NegInt(i64::MIN))
    ));
    let bits = 1.5f64.to_bits();
    assert!(matches!(parsed("1.5"), JsonValue::Number(JsonNumber::Float(b)) if b == bits));
    let bits = 1e300f64.to_bits();
    assert!(matches!(parsed("1e300"), JsonValue::Number(JsonNumber::Float(b)) if b == bits));
}

#[test]
fn parses_arrays_in_order() {
    match parsed("[1, \"two\", [3]]") {
        JsonValue::Array(items) => {
            assert_eq!(items.len(), 3);
            assert!(matches!(items[0], JsonValue::Number(JsonNumber::PosInt(1))));
            assert!(matches!(&items[1], JsonValue::String(s) if s == "two"));
            match &items[2] {
                JsonValue::Array(inner) => {
                    assert_eq!(inner.len(), 1);
                    assert!(matches!(inner[0], JsonValue::Number(JsonNumber::PosInt(3))));
                }
                other => panic!("not an array: {:?}", other),
            }
        }
        other => panic!("not an array: {:?}", other),
    }
}

#[test]
fn parses_objects_with_every_member() {
    let value = parsed(r#"{"b": {"c": null}, "a": [true]}"#);
    assert!(value.is_object());
    assert!(value.contains_key("a"));
    assert!(value.contains_key("b"));
    assert!(!value.contains_key("c"));
    assert!(value.get("b").unwrap().get("c").unwrap().is_null());
    assert!(value.get("a").unwrap().is_array());
    match &value {
        JsonValue::Object(members) => assert_eq!(members.len(), 2),
        other => panic!("not an object: {:?}", other),
    }
}

#[test]
fn a_key_given_twice_counts_once_with_its_later_value() {
    let value = parsed(r#"{"a": 1, "a": 2}"#);
    match &value {
        JsonValue::Object(members) => assert_eq!(members.len(), 1),
        other => panic!("not an object: {:?}", other),
    }
    assert!(matches!(value.get("a"), Some(JsonValue::Number(JsonNumber::PosInt(2)))));
}

#[test]
fn reports_where_the_text_stops_being_json() {
    let error = parse_json(r#"{"key": "value"#).unwrap_err();
    assert_eq!(error.line, 1);
    assert_eq!(error.column, 14);
    assert_eq!(error.message, "EOF while parsing a string at line 1 column 14");

    let error = parse_json("").unwrap_err();
    assert_eq!(error.line, 1);
    assert_eq!(error.column, 0);
    assert_eq!(error.message, "EOF while parsing a value at line 1 column 0");

    let error = parse_json("not json").unwrap_err();
    assert_eq!(error.line, 1);
    assert_eq!(error.column, 2);
    assert_eq!(error.message, "expected ident at line 1 column 2");
}

#[test]
fn rejects_what_follows_a_value() {
    let error = parse_json("{} {}").unwrap_err();
    assert_eq!(error.message, "trailing characters at line 1 column 4");
}

#[test]
fn kind_tests_tell_the_kinds_apart() {
    let values = vec![
        JsonValue::Null,
        JsonValue::Bool(false),
        JsonValue::Number(JsonNumber::PosInt(1)),
        JsonValue::String(String::new()),
        JsonValue::Array(vec![]),
        JsonValue::Object(vec![]),
    ];
    for (i, v) in values.iter().enumerate() {
        assert_eq!(v.is_null(), i == 0);
        assert_eq!(v.is_boolean(), i == 1);
        assert_eq!(v.is_number(), i == 2);
        assert_eq!(v.is_string(), i == 3);
        assert_eq!(v.is_array(), i == 4);
        assert_eq!(v.is_object(), i == 5);
    }
}

#[test]
fn get_finds_the_last_member_of_a_key() {
    let value = JsonValue::Object(vec![
        member("a", JsonValue::Bool(false)),
        member("b", JsonValue::Null),
        member("a", JsonValue::Bool(true)),
    ]);
    assert!(matches!(value.get("a"), Some(JsonValue::Bool(true))));
    assert!(matches!(value.get("b"), Some(JsonValue::Null)));
    assert!(value.get("c").is_none());
    assert!(JsonValue::Array(vec![]).get("a").is_none());
}

#[test]
fn numbers_are_equal_by_value() {
    let one = JsonNumber::PosInt(1);
    assert!(one.same_number(&JsonNumber::PosInt(1)));
    assert!(one.same_number(&JsonNumber::NegInt(1)));
    assert!(JsonNumber::NegInt(1).same_number(&one));
    assert!(!one.same_number(&JsonNumber::PosInt(2)));
    assert!(!one.same_number(&JsonNumber::NegInt(-1)));
    assert!(!JsonNumber::NegInt(-1).same_number(&JsonNumber::PosInt(u64::MAX)));
    assert!(!one.same_number(&JsonNumber::Float(1.0f64.to_bits())));
    assert!(!JsonNumber::Float(1.0f64.to_bits()).same_number(&one));
    assert!(JsonNumber::Float(1.5f64.to_bits()).same_number(&JsonNumber::Float(1.5f64.to_bits())));
    assert!(!JsonNumber::Float(1.5f64.to_bits()).same_number(&JsonNumber::Float(2.5f64.to_bits())));
}

#[test]
fn the_two_zeros_are_one_number() {
    let plus = JsonNumber::Float(0.0f64.to_bits());
    let minus = JsonNumber::Float((-0.0f64).to_bits());
    assert!(plus.same_number(&minus));
    assert!(minus.same_number(&plus));
    assert!(parsed("[0.0]").deep_equal(&parsed("[-0.0]")));
    assert!(!parsed("0").deep_equal(&parsed("0.0")));
}

#[test]
fn deep_equal_ignores_the_order_of_members() {
    let a = parsed(r#"{"x": 1, "y": {"p": [1, 2], "q": "s"}}"#);
    let b = parsed(r#"{"y": {"q": "s", "p": [1, 2]}, "x": 1}"#);
    assert!(a.deep_equal(&b));
    assert!(b.deep_equal(&a));
}

#[test]
fn deep_equal_respects_the_order_of_items() {
    assert!(!parsed("[1, 2]").deep_equal(&parsed("[2, 1]")));
    assert!(!parsed("[1, 2]").deep_equal(&parsed("[1, 2, 3]")));
    assert!(parsed("[]").deep_equal(&parsed("[]")));
}

#[test]
fn deep_equal_sees_a_difference_at_any_depth() {
    let a = parsed(r#"{"x": {"y": {"z": [1, {"w": true}]}}}"#);
    let b = parsed(r#"{"x": {"y": {"z": [1, {"w": false}]}}}"#);
    assert!(!a.deep_equal(&b));
    assert!(a.deep_equal(&a));
}

#[test]
fn deep_equal_tells_the_kinds_apart() {
    let values = vec!["null", "false", "0", "\"\"", "[]", "{}"];
    for (i, a) in values.iter().enumerate() {
        for (j, b) in values.iter().enumerate() {
            assert_eq!(parsed(a).deep_equal(&parsed(b)), i == j);
        }
    }
}

#[test]
fn deep_equal_sees_a_key_on_one_side_only() {
    assert!(!parsed(r#"{"a": 1}"#).deep_equal(&parsed(r#"{"a": 1, "b": 2}"#)));
    assert!(!parsed(r#"{"a": 1, "b": 2}"#).deep_equal(&parsed(r#"{"a": 1}"#)));
    assert!(!parsed(r#"{"a": 1}"#).deep_equal(&parsed(r#"{"b": 1}"#)));
}

#[test]
fn deep_equal_takes_the_later_member_of_a_key() {
    let twice = JsonValue::Object(vec![
        member("a", JsonValue::Bool(false)),
        member("a", JsonValue::Bool(true)),
    ]);
    let once = JsonValue::Object(vec![member("a", JsonValue::Bool(true))]);
    assert!(twice.deep_equal(&once));
    assert!(once.deep_equal(&twice));
    let other = JsonValue::Object(vec![member("a", JsonValue::Bool(false))]);
    assert!(!twice.deep_equal(&other));
}

#[test]
fn members_are_compared_outside_the_skipped_keys() {
    let a = vec![member("model", JsonValue::Bool(true)), member("theme", JsonValue::Null)];
    let b = vec![member("theme", JsonValue::Null), member("model", JsonValue::Bool(false))];
    let c = vec![member("theme", JsonValue::Null)];
    let none: Vec<String> = vec![];
    let model = vec!["model".to_string()];
    let both = vec!["model".to_string(), "theme".to_string()];
    assert!(!cccs::json::members_equal(&a, &b, &none));
    assert!(cccs::json::members_equal(&a, &b, &model));
    assert!(cccs::json::members_equal(&a, &c, &model));
    assert!(!cccs::json::members_equal(&a, &c, &none));
    assert!(cccs::json::members_equal(&a, &vec![], &both));
    assert!(cccs::json::members_equal(&a, &a, &none));
    assert_eq!(cccs::json::find_last(&a, &"theme".to_string()), Some(1));
    assert_eq!(cccs::json::find_last(&a, &"other".to_string()), None);
}
