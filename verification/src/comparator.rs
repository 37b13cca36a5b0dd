//! The comparison of the live configuration with one profile.

use crate::json::{members_equal, Json, JsonValue};
use crate::json_parse::{parse_json, parsed_json, SyntaxErrorView};
use crate::text::text_set;
use crate::types::{AppError, AppErrorView, ProfileStatus, StatusView};
use vstd::prelude::*;

verus! {

/// How two parsed configurations relate, given the top-level keys to ignore.
///
/// Both must be objects. Equal objects match in full. Objects that are equal
/// once every ignored key is taken out of both match in part: all that
/// differs lies under ignored keys. Anything else is no match.
pub open spec fn classify(live: Json, profile: Json, ignored: Set<Seq<char>>) -> StatusView {
    if !(live is Object) || !(profile is Object) {
        StatusView::Error("expected object"@)
    } else if live == profile {
        StatusView::FullMatch
    } else if live->Object_0.remove_keys(ignored) == profile->Object_0.remove_keys(ignored) {
        StatusView::PartialMatch
    } else {
        StatusView::NoMatch
    }
}

/// How two configuration texts relate. A text that does not parse gives an
/// error with the parser's message, the live text first.
pub open spec fn compare_texts(
    live: Seq<char>,
    profile: Seq<char>,
    ignored: Set<Seq<char>>,
) -> StatusView {
    match parsed_json(live) {
        Err(e) => StatusView::Error(e.message),
        Ok(a) => match parsed_json(profile) {
            Err(e) => StatusView::Error(e.message),
            Ok(b) => classify(a, b, ignored),
        },
    }
}

/// Parses a configuration text. A text that is not JSON is a parse error
/// with the parser's message.
pub fn parse_configuration(text: &str) -> (r: Result<JsonValue, AppError>)
    ensures
        match r {
            Ok(v) => parsed_json(text@) == Ok::<Json, SyntaxErrorView>(v.model()),
            Err(e) => parsed_json(text@) matches Err(s) && e@ == AppErrorView::ParseError(
                s.message,
            ),
        },
{
    match parse_json(text) {
        Ok(v) => Ok(v),
        Err(e) => Err(AppError::ParseError(e.message)),
    }
}

/// Classifies the parsed live configuration against a parsed profile.
pub fn compare_values(live: &JsonValue, profile: &JsonValue, ignored_fields: &Vec<String>) -> (r:
    ProfileStatus)
    ensures
        r@ == classify(live.model(), profile.model(), text_set(ignored_fields@)),
{
    match live {
        JsonValue::Object(a) => match profile {
            JsonValue::Object(b) => {
                if live.deep_equal(profile) {
                    ProfileStatus::FullMatch
                } else if members_equal(a, b, ignored_fields) {
                    ProfileStatus::PartialMatch
                } else {
                    ProfileStatus::NoMatch
                }
            },
            _ => ProfileStatus::Error(String::from_str("expected object")),
        },
        _ => ProfileStatus::Error(String::from_str("expected object")),
    }
}

/// Classifies the live configuration text against a profile's text.
pub fn compare(live_json: &str, profile_json: &str, ignored_fields: &Vec<String>) -> (r:
    ProfileStatus)
    ensures
        r@ == compare_texts(live_json@, profile_json@, text_set(ignored_fields@)),
{
    match parse_configuration(live_json) {
        Err(e) => ProfileStatus::Error(e.detail()),
        Ok(live) => match parse_configuration(profile_json) {
            Err(e) => ProfileStatus::Error(e.detail()),
            Ok(profile) => compare_values(&live, &profile, ignored_fields),
        },
    }
}

/// Two objects match in full exactly when they are equal; they match in part
/// exactly when they differ but are equal once the ignored keys are taken out
/// of both; they do not match exactly when they still differ then. No other
/// outcome exists for two objects.
pub proof fn lemma_ignore_set_equivalence(
    a: Map<Seq<char>, Json>,
    b: Map<Seq<char>, Json>,
    ignored: Set<Seq<char>>,
)
    ensures
        classify(Json::Object(a), Json::Object(b), ignored) is FullMatch <==> a == b,
        classify(Json::Object(a), Json::Object(b), ignored) is PartialMatch <==> (a != b
            && a.remove_keys(ignored) == b.remove_keys(ignored)),
        classify(Json::Object(a), Json::Object(b), ignored) is NoMatch <==> a.remove_keys(ignored)
            != b.remove_keys(ignored),
        !(classify(Json::Object(a), Json::Object(b), ignored) is Error),
{
}

/// What stands under an ignored key takes no part in the comparison: setting
/// or removing such a key on either side never turns a match into no match,
/// nor no match into a match.
pub proof fn lemma_ignored_key_excluded(
    a: Map<Seq<char>, Json>,
    b: Map<Seq<char>, Json>,
    ignored: Set<Seq<char>>,
    key: Seq<char>,
    value: Json,
)
    requires
        ignored.contains(key),
    ensures
        classify(Json::Object(a.insert(key, value)), Json::Object(b), ignored) is NoMatch
            <==> classify(Json::Object(a), Json::Object(b), ignored) is NoMatch,
        classify(Json::Object(a.remove(key)), Json::Object(b), ignored) is NoMatch <==> classify(
            Json::Object(a),
            Json::Object(b),
            ignored,
        ) is NoMatch,
        classify(Json::Object(a), Json::Object(b.insert(key, value)), ignored) is NoMatch
            <==> classify(Json::Object(a), Json::Object(b), ignored) is NoMatch,
        classify(Json::Object(a), Json::Object(b.remove(key)), ignored) is NoMatch <==> classify(
            Json::Object(a),
            Json::Object(b),
            ignored,
        ) is NoMatch,
{
    assert(a.insert(key, value).remove_keys(ignored) =~= a.remove_keys(ignored));
    assert(a.remove(key).remove_keys(ignored) =~= a.remove_keys(ignored));
    assert(b.insert(key, value).remove_keys(ignored) =~= b.remove_keys(ignored));
    assert(b.remove(key).remove_keys(ignored) =~= b.remove_keys(ignored));
}

/// A difference under a key that is not ignored is no match, whatever else
/// is ignored: the key is on one side only, or its two values differ.
pub proof fn lemma_difference_outside_ignored(
    a: Map<Seq<char>, Json>,
    b: Map<Seq<char>, Json>,
    ignored: Set<Seq<char>>,
    key: Seq<char>,
)
    requires
        !ignored.contains(key),
        a.contains_key(key) != b.contains_key(key) || (a.contains_key(key) && a[key] != b[key]),
    ensures
        classify(Json::Object(a), Json::Object(b), ignored) is NoMatch,
{
    if a.remove_keys(ignored) == b.remove_keys(ignored) {
        assert(a.remove_keys(ignored).contains_key(key) == b.remove_keys(ignored).contains_key(key));
        assert(a.remove_keys(ignored)[key] == b.remove_keys(ignored)[key]);
    }
}

} // verus!
