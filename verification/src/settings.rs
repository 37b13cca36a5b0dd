//! The user's settings: their defaults, and the rules for the list of
//! top-level fields that a comparison ignores.

use crate::text::{chars_of, is_white_space, is_whitespace_char, texts, trim, trimmed};
use crate::types::UserSettings;
use vstd::prelude::*;

verus! {

/// The greatest number of characters that the name of an ignored field may
/// have.
pub const MAX_FIELD_NAME_LENGTH: usize = 100;

/// The fields that a comparison ignores unless the user says otherwise.
pub open spec fn default_ignored_fields() -> Seq<Seq<char>> {
    seq!["model"@, "feedbackSurveyState"@]
}

/// Whether `c` may not stand in the name of a field: white space, a brace, a
/// bracket, a quote or a backslash.
pub open spec fn is_invalid_field_char(c: char) -> bool {
    is_white_space(c) || c == '{' || c == '}' || c == '[' || c == ']' || c == '"' || c == '\''
        || c == '\\'
}

/// Whether some character of `name` may not stand in the name of a field.
pub open spec fn has_invalid_char(name: Seq<char>) -> bool {
    exists|i: int| 0 <= i < name.len() && is_invalid_field_char(name[i])
}

/// What is wrong with the trimmed name of a field, as the message for the
/// user: it is empty, it holds a character that it may not hold, or it is
/// too long. Nothing is wrong with any other name.
pub open spec fn field_problem(name: Seq<char>) -> Option<Seq<char>> {
    if name.len() == 0 {
        Some("字段名不能为空"@)
    } else if has_invalid_char(name) {
        Some("字段名 '"@ + name + "' 包含无效字符"@)
    } else if name.len() > MAX_FIELD_NAME_LENGTH {
        Some("字段名 '"@ + name + "' 过长（最大100字符）"@)
    } else {
        None
    }
}

/// What is wrong with the first of the fields from `from` on with which
/// something is wrong, each field taken without the white space around it.
pub open spec fn first_problem(fields: Seq<Seq<char>>, from: int) -> Option<Seq<char>>
    decreases fields.len() - from,
{
    if from < 0 || from >= fields.len() {
        None
    } else {
        match field_problem(trimmed(fields[from])) {
            Some(message) => Some(message),
            None => first_problem(fields, from + 1),
        }
    }
}

/// The first `n` fields as a normalized list: each without the white space
/// around it, the empty ones left out, and each name once, where it first
/// occurs.
pub open spec fn normalized_upto(fields: Seq<Seq<char>>, n: int) -> Seq<Seq<char>>
    decreases n,
{
    if n <= 0 || n > fields.len() {
        Seq::empty()
    } else {
        let before = normalized_upto(fields, n - 1);
        let name = trimmed(fields[n - 1]);
        if name.len() == 0 || before.contains(name) {
            before
        } else {
            before.push(name)
        }
    }
}

/// A normalized list holds no empty name and no name twice.
pub proof fn lemma_normalized(fields: Seq<Seq<char>>, n: int)
    ensures
        forall|i: int|
            0 <= i < normalized_upto(fields, n).len() ==> #[trigger] normalized_upto(
                fields,
                n,
            )[i].len() > 0,
        forall|i: int, j: int|
            0 <= i < j < normalized_upto(fields, n).len() ==> normalized_upto(fields, n)[i]
                != normalized_upto(fields, n)[j],
    decreases n,
{
    if 0 < n <= fields.len() {
        lemma_normalized(fields, n - 1);
        let before = normalized_upto(fields, n - 1);
        let name = trimmed(fields[n - 1]);
        let now = normalized_upto(fields, n);
        if !(name.len() == 0 || before.contains(name)) {
            assert forall|i: int| 0 <= i < now.len() implies #[trigger] now[i].len() > 0 by {
                if i < before.len() {
                    assert(now[i] == before[i]);
                }
            }
            assert forall|i: int, j: int| 0 <= i < j < now.len() implies now[i] != now[j] by {
                assert(now[i] == before[i]);
                if j < before.len() {
                    assert(now[j] == before[j]);
                } else {
                    assert(before.contains(before[i]));
                }
            }
        }
    }
}

/// Whether some character of `name` may not stand in the name of a field.
fn contains_invalid_char(name: &str) -> (r: bool)
    ensures
        r == has_invalid_char(name@),
{
    let chars = chars_of(name);
    let mut i: usize = 0;
    while i < chars.len()
        invariant
            i <= chars@.len(),
            chars@ == name@,
            forall|k: int| 0 <= k < i ==> !is_invalid_field_char(chars@[k]),
        decreases chars@.len() - i,
    {
        let c = chars[i];
        if is_whitespace_char(c) || c == '{' || c == '}' || c == '[' || c == ']' || c == '"' || c
            == '\'' || c == '\\' {
            return true;
        }
        i += 1;
    }
    false
}

/// What is wrong with the trimmed name `name`, if anything.
fn check_field(name: &str) -> (r: Option<String>)
    ensures
        match r {
            Some(message) => field_problem(name@) == Some(message@),
            None => field_problem(name@) is None,
        },
{
    let length = name.unicode_len();
    if length == 0 {
        Some(String::from_str("字段名不能为空"))
    } else if contains_invalid_char(name) {
        Some(String::from_str("字段名 '").concat(name).concat("' 包含无效字符"))
    } else if length > MAX_FIELD_NAME_LENGTH {
        Some(String::from_str("字段名 '").concat(name).concat("' 过长（最大100字符）"))
    } else {
        None
    }
}

/// Whether `name` is one of `names`.
fn holds(names: &Vec<String>, name: &String) -> (r: bool)
    ensures
        r == texts(names@).contains(name@),
{
    let mut i: usize = 0;
    while i < names.len()
        invariant
            i <= names@.len(),
            forall|k: int| 0 <= k < i ==> texts(names@)[k] != name@,
        decreases names@.len() - i,
    {
        if names[i] == *name {
            assert(texts(names@)[i as int] == name@);
            return true;
        }
        i += 1;
    }
    false
}

impl Default for UserSettings {
    fn default() -> (r: Self)
        ensures
            r.monitor_interval_minutes == 5,
            r.auto_start_monitoring,
            r.language is None,
            r.show_notifications,
            texts(r.ignored_fields@) == default_ignored_fields(),
    {
        UserSettings {
            monitor_interval_minutes: 5,
            auto_start_monitoring: true,
            language: None,
            show_notifications: true,
            ignored_fields: Self::get_default_ignored_fields(),
        }
    }
}

impl UserSettings {
    /// The fields that a comparison ignores unless the user says otherwise.
    pub fn get_default_ignored_fields() -> (r: Vec<String>)
        ensures
            texts(r@) == default_ignored_fields(),
    {
        let mut fields: Vec<String> = Vec::new();
        fields.push(String::from_str("model"));
        fields.push(String::from_str("feedbackSurveyState"));
        assert(texts(fields@) =~= default_ignored_fields());
        fields
    }

    /// Checks a list of fields to ignore. Each name is taken without the
    /// white space around it. The list is accepted when nothing is wrong
    /// with any name; else the error says what is wrong with the first name
    /// with which something is wrong.
    pub fn validate_ignored_fields(fields: &[String]) -> (r: Result<(), String>)
        ensures
            match r {
                Ok(_) => first_problem(texts(fields@), 0) is None,
                Err(message) => first_problem(texts(fields@), 0) == Some(message@),
            },
    {
        let mut i: usize = 0;
        while i < fields.len()
            invariant
                i <= fields@.len(),
                first_problem(texts(fields@), 0) == first_problem(texts(fields@), i as int),
            decreases fields@.len() - i,
        {
            assert(texts(fields@)[i as int] == fields@[i as int]@);
            let name = trim(fields[i].as_str());
            match check_field(name) {
                Some(message) => {
                    return Err(message);
                },
                None => {},
            }
            i += 1;
        }
        Ok(())
    }

    /// The list of fields to ignore in its normal form: each name without
    /// the white space around it, the empty ones left out, and each name
    /// once, where it first occurs.
    pub fn normalize_ignored_fields(fields: Vec<String>) -> (r: Vec<String>)
        ensures
            texts(r@) == normalized_upto(texts(fields@), fields@.len() as int),
            forall|i: int| 0 <= i < r@.len() ==> r@[i]@.len() > 0,
            forall|i: int, j: int| 0 <= i < j < r@.len() ==> r@[i]@ != r@[j]@,
    {
        let mut out: Vec<String> = Vec::new();
        let mut i: usize = 0;
        while i < fields.len()
            invariant
                i <= fields@.len(),
                texts(out@) == normalized_upto(texts(fields@), i as int),
            decreases fields@.len() - i,
        {
            assert(texts(fields@)[i as int] == fields@[i as int]@);
            let name = String::from_str(trim(fields[i].as_str()));
            if name.as_str().unicode_len() > 0 && !holds(&out, &name) {
                let ghost before = texts(out@);
                out.push(name);
                assert(texts(out@) =~= before.push(name@));
            }
            i += 1;
        }
        proof {
            lemma_normalized(texts(fields@), fields@.len() as int);
            assert forall|k: int| 0 <= k < out@.len() implies out@[k]@.len() > 0 by {
                assert(texts(out@)[k] == out@[k]@);
            }
            assert forall|a: int, b: int| 0 <= a < b < out@.len() implies out@[a]@ != out@[b]@ by {
                assert(texts(out@)[a] == out@[a]@);
                assert(texts(out@)[b] == out@[b]@);
            }
        }
        out
    }
}

} // verus!
