use cccs::comparator::{compare, compare_values, parse_configuration};
use cccs::json_parse::parse_json;
use cccs::{AppError, ProfileStatus};

fn ignoring(fields: &[&str]) -> Vec<String> {
    fields.iter().map(|f| f.to_string()).collect()
}

#[test]
fn difference_under_an_ignored_field_is_a_partial_match() {
    let status = compare(
        r#"{"model":"a","theme":"dark"}"#,
        r#"{"model":"b","theme":"dark"}"#,
        &ignoring(&["model"]),
    );
    assert_eq!(status, ProfileStatus::PartialMatch);
}

#[test]
fn the_same_content_is_a_full_match() {
    let content = r#"{"model":"a","theme":"dark","nested":{"list":[1,2,3]}}"#;
    assert_eq!(compare(content, content, &ignoring(&["model"])), ProfileStatus::FullMatch);
    assert_eq!(compare(content, content, &ignoring(&[])), ProfileStatus::FullMatch);
}

#[test]
fn difference_outside_the_ignored_fields_is_no_match() {
    let live = r#"{"model":"a","theme":"dark"}"#;
    let profile = r#"{"model":"a","theme":"light"}"#;
    assert_eq!(compare(live, profile, &ignoring(&["model"])), ProfileStatus::NoMatch);
    assert_eq!(compare(live, profile, &ignoring(&[])), ProfileStatus::NoMatch);
    assert_eq!(
        compare(live, profile, &ignoring(&["model", "feedbackSurveyState", "other"])),
        ProfileStatus::NoMatch
    );
}

#[test]
fn content_that_is_not_json_is_an_error() {
    let status = compare(r#"{"a": 1}"#, "not json", &ignoring(&["model"]));
    assert_eq!(status, ProfileStatus::Error("expected ident at line 1 column 2".to_string()));
    let status = compare("{", r#"{"a": 1}"#, &ignoring(&[]));
    assert_eq!(
        status,
        ProfileStatus::Error("EOF while parsing an object at line 1 column 1".to_string())
    );
}

#[test]
fn the_error_of_the_live_side_comes_first() {
    let status = compare("[", "{", &ignoring(&[]));
    assert_eq!(
        status,
        ProfileStatus::Error("EOF while parsing a list at line 1 column 1".to_string())
    );
}

#[test]
fn what_is_not_an_object_is_an_error() {
    let expected = ProfileStatus::Error("expected object".to_string());
    assert_eq!(compare("[1]", r#"{"a": 1}"#, &ignoring(&[])), expected);
    assert_eq!(compare(r#"{"a": 1}"#, "\"text\"", &ignoring(&[])), expected);
    assert_eq!(compare("1", "1", &ignoring(&[])), expected);
    assert_eq!(compare("null", "null", &ignoring(&["model"])), expected);
}

#[test]
fn an_ignored_key_on_one_side_only_is_a_partial_match() {
    let with = r#"{"model":"a","theme":"dark"}"#;
    let without = r#"{"theme":"dark"}"#;
    assert_eq!(compare(with, without, &ignoring(&["model"])), ProfileStatus::PartialMatch);
    assert_eq!(compare(without, with, &ignoring(&["model"])), ProfileStatus::PartialMatch);
    assert_eq!(compare(with, without, &ignoring(&[])), ProfileStatus::NoMatch);
}

#[test]
fn ignoring_works_at_the_top_level_only() {
    let live = r#"{"outer":{"model":"a"}}"#;
    let profile = r#"{"outer":{"model":"b"}}"#;
    assert_eq!(compare(live, profile, &ignoring(&["model"])), ProfileStatus::NoMatch);
    assert_eq!(compare(live, profile, &ignoring(&["outer"])), ProfileStatus::PartialMatch);
}

#[test]
fn the_order_of_keys_does_not_matter_but_that_of_items_does() {
    assert_eq!(
        compare(r#"{"a":1,"b":[1,2]}"#, r#"{"b":[1,2],"a":1}"#, &ignoring(&[])),
        ProfileStatus::FullMatch
    );
    assert_eq!(
        compare(r#"{"a":1,"b":[1,2]}"#, r#"{"b":[2,1],"a":1}"#, &ignoring(&[])),
        ProfileStatus::NoMatch
    );
}

#[test]
fn several_ignored_fields_may_differ_at_once() {
    let live = r#"{"model":"a","feedbackSurveyState":{"n":1},"theme":"dark"}"#;
    let profile = r#"{"model":"b","feedbackSurveyState":{"n":2},"theme":"dark"}"#;
    assert_eq!(
        compare(live, profile, &ignoring(&["model", "feedbackSurveyState"])),
        ProfileStatus::PartialMatch
    );
    assert_eq!(compare(live, profile, &ignoring(&["model"])), ProfileStatus::NoMatch);
}

#[test]
fn empty_objects_match_in_full() {
    assert_eq!(compare("{}", "{}", &ignoring(&["model"])), ProfileStatus::FullMatch);
    assert_eq!(compare(" { } ", "{}", &ignoring(&[])), ProfileStatus::FullMatch);
}

#[test]
fn parsed_values_compare_as_their_texts_do() {
    let live = parse_json(r#"{"model":"a","theme":"dark"}"#).unwrap();
    let profile = parse_json(r#"{"theme":"dark","model":"b"}"#).unwrap();
    assert_eq!(compare_values(&live, &profile, &ignoring(&["model"])), ProfileStatus::PartialMatch);
    assert_eq!(compare_values(&live, &profile, &ignoring(&["theme"])), ProfileStatus::NoMatch);
    assert_eq!(compare_values(&live, &live, &ignoring(&[])), ProfileStatus::FullMatch);
    let list = parse_json("[]").unwrap();
    assert_eq!(
        compare_values(&live, &list, &ignoring(&[])),
        ProfileStatus::Error("expected object".to_string())
    );
}

#[test]
fn a_configuration_that_is_not_json_is_a_parse_error() {
    assert!(parse_configuration(r#"{"a": [1, 2]}"#).unwrap().is_object());
    assert!(matches!(
        parse_configuration("{"),
        Err(AppError::ParseError(m)) if m == "EOF while parsing an object at line 1 column 1"
    ));
}
