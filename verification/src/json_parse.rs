//! Reading JSON text. The parser is `serde_json`; what it hands back is
//! walked here and rebuilt as a `JsonValue`.

use crate::json::{
    fold_zero, items_model, lemma_last_index, lemma_members_model, members_model, Json,
    JsonMember, JsonNumber, JsonNumberModel, JsonValue,
};
use vstd::prelude::*;

verus! {

/// Where and why a text is not JSON.
#[derive(Debug, Clone)]
pub struct JsonSyntaxError {
    pub line: usize,
    pub column: usize,
    pub message: String,
}

/// What a `JsonSyntaxError` is, as plain values.
pub struct SyntaxErrorView {
    pub line: nat,
    pub column: nat,
    pub message: Seq<char>,
}

impl View for JsonSyntaxError {
    type V = SyntaxErrorView;

    open spec fn view(&self) -> SyntaxErrorView {
        SyntaxErrorView {
            line: self.line as nat,
            column: self.column as nat,
            message: self.message@,
        }
    }
}

/// `serde_json::Value`, a parsed JSON tree. Its inside is not visible here.
#[verifier::external_type_specification]
#[verifier::external_body]
pub struct ExValue(serde_json::Value);

/// What `serde_json::from_str` makes of a text: the value it parses to, or
/// the error it reports with its line, its column and its message.
pub uninterp spec fn parsed_json(text: Seq<char>) -> Result<Json, SyntaxErrorView>;

/// The JSON value that a `serde_json::Value` holds: variant by variant, an
/// integer number as that integer, a floating-point number as its bits with
/// negative zero folded into zero, an object as the map of its entries.
pub uninterp spec fn value_json(v: serde_json::Value) -> Json;

/// `serde_json::from_str` at the type `serde_json::Value`. The result is the
/// one that `parsed_json` names; of an error, the line, the column and the
/// displayed message are handed on.
#[verifier::external_body]
fn parse_value(text: &str) -> (r: Result<serde_json::Value, JsonSyntaxError>)
    ensures
        match r {
            Ok(v) => parsed_json(text@) == Ok::<Json, SyntaxErrorView>(value_json(v)),
            Err(e) => parsed_json(text@) == Err::<Json, SyntaxErrorView>(e@),
        },
{
    match serde_json::from_str::<serde_json::Value>(text) {
        Ok(v) => Ok(v),
        Err(e) => Err(JsonSyntaxError { line: e.line(), column: e.column(), message: e.to_string() }),
    }
}

/// `serde_json::Value::as_bool`: the boolean of a `Bool`, nothing of any
/// other variant.
pub assume_specification[ serde_json::Value::as_bool ](v: &serde_json::Value) -> (r: Option<bool>)
    ensures
        r == (match value_json(*v) {
            Json::Bool(b) => Some(b),
            _ => None,
        }),
;

/// `serde_json::Value::as_u64`: the integer of a `Number` that holds one
/// that is not negative, nothing otherwise. An integer that a `Number` holds
/// lies between the least `i64` and the greatest `u64`.
pub assume_specification[ serde_json::Value::as_u64 ](v: &serde_json::Value) -> (r: Option<u64>)
    ensures
        match value_json(*v) {
            Json::Number(JsonNumberModel::Integer(i)) => i64::MIN <= i <= u64::MAX && r == (if i
                >= 0 {
                Some(i as u64)
            } else {
                None
            }),
            _ => r is None,
        },
;

/// `serde_json::Value::as_i64`: the integer of a `Number` that holds one
/// that an `i64` can hold, nothing otherwise.
pub assume_specification[ serde_json::Value::as_i64 ](v: &serde_json::Value) -> (r: Option<i64>)
    ensures
        match value_json(*v) {
            Json::Number(JsonNumberModel::Integer(i)) => i64::MIN <= i <= u64::MAX && r == (if i
                <= i64::MAX {
                Some(i as i64)
            } else {
                None
            }),
            _ => r is None,
        },
;

/// `serde_json::Value::as_f64`, handed on as the bits of the number: of a
/// `Number` that holds a floating-point number, its bits; of a `Number`
/// that holds an integer, the bits of some floating-point number; nothing of
/// any other variant.
#[verifier::external_body]
fn value_float_bits(v: &serde_json::Value) -> (r: Option<u64>)
    ensures
        r is Some <==> value_json(*v) is Number,
        value_json(*v) matches Json::Number(JsonNumberModel::Float(bits)) ==> r is Some
            && fold_zero(r->0) == bits,
{
    match v.as_f64() {
        Some(x) => Some(x.to_bits()),
        None => None,
    }
}

/// `serde_json::Value::as_str`: the text of a `String`, nothing of any other
/// variant.
pub assume_specification[ serde_json::Value::as_str ](v: &serde_json::Value) -> (r: Option<&str>)
    ensures
        match r {
            Some(s) => value_json(*v) == Json::String(s@),
            None => !(value_json(*v) is String),
        },
;

/// The values that `items` hold, in order.
pub open spec fn values_json(items: Seq<serde_json::Value>) -> Seq<Json> {
    Seq::new(items.len(), |i: int| value_json(items[i]))
}

/// `serde_json::Value::as_array`: the items of an `Array`, nothing of any
/// other variant.
pub assume_specification[ serde_json::Value::as_array ](v: &serde_json::Value) -> (r: Option<
    &Vec<serde_json::Value>,
>)
    ensures
        match r {
            Some(items) => value_json(*v) == Json::Array(values_json(items@)),
            None => !(value_json(*v) is Array),
        },
;

/// Whether `entries` are the entries of the map `m`: no key twice, the keys
/// are those of `m`, and each entry's value is what `m` holds under its key.
pub open spec fn entries_of(
    entries: Seq<(&String, &serde_json::Value)>,
    m: Map<Seq<char>, Json>,
) -> bool {
    &&& forall|i: int, j: int|
        0 <= i < j < entries.len() ==> entries[i].0@ != entries[j].0@
    &&& forall|i: int|
        0 <= i < entries.len() ==> m.contains_key(#[trigger] entries[i].0@) && m[entries[i].0@]
            == value_json(*entries[i].1)
    &&& forall|k: Seq<char>| #[trigger]
        m.contains_key(k) ==> exists|i: int| 0 <= i < entries.len() && entries[i].0@ == k
}

/// `serde_json::Value::as_object` and `serde_json::Map::iter`: the entries
/// of an `Object`, each key once, nothing of any other variant.
#[verifier::external_body]
fn value_entries(v: &serde_json::Value) -> (r: Option<Vec<(&String, &serde_json::Value)>>)
    ensures
        match r {
            Some(entries) => value_json(*v) is Object && entries_of(
                entries@,
                value_json(*v)->Object_0,
            ),
            None => !(value_json(*v) is Object),
        },
{
    v.as_object().map(|m| m.iter().collect())
}

/// The tree that `v` holds, rebuilt as a `JsonValue`.
#[verifier::loop_isolation(false)]
fn convert(v: &serde_json::Value) -> (r: JsonValue)
    ensures
        r.model() == value_json(*v),
    decreases value_json(*v),
{
    if let Some(b) = v.as_bool() {
        return JsonValue::Bool(b);
    }
    if let Some(u) = v.as_u64() {
        return JsonValue::Number(JsonNumber::PosInt(u));
    }
    if let Some(i) = v.as_i64() {
        return JsonValue::Number(JsonNumber::NegInt(i));
    }
    if let Some(bits) = value_float_bits(v) {
        return JsonValue::Number(JsonNumber::Float(bits));
    }
    if let Some(s) = v.as_str() {
        return JsonValue::String(String::from_str(s));
    }
    if let Some(items) = v.as_array() {
        let mut out: Vec<JsonValue> = Vec::new();
        let mut i: usize = 0;
        while i < items.len()
            invariant
                i <= items@.len(),
                out@.len() == i,
                items_model(out@) == values_json(items@).take(i as int),
            decreases items@.len() - i,
        {
            assert(value_json(*v)->Array_0[i as int] == value_json(items@[i as int]));
            let item = convert(&items[i]);
            proof {
                assert(out@.push(item).drop_last() == out@);
                assert(values_json(items@).take(i + 1) == values_json(items@).take(i as int).push(
                    value_json(items@[i as int]),
                ));
            }
            out.push(item);
            i += 1;
        }
        assert(values_json(items@).take(i as int) == values_json(items@));
        return JsonValue::Array(out);
    }
    if let Some(entries) = value_entries(v) {
        let ghost m = value_json(*v)->Object_0;
        let mut out: Vec<JsonMember> = Vec::new();
        let mut i: usize = 0;
        while i < entries.len()
            invariant
                i <= entries@.len(),
                out@.len() == i,
                forall|k: int| 0 <= k < i ==> out@[k].key@ == entries@[k].0@,
                forall|k: int| 0 <= k < i ==> out@[k].value.model() == value_json(*entries@[k].1),
            decreases entries@.len() - i,
        {
            assert(m[entries@[i as int].0@] == value_json(*entries@[i as int].1));
            let value = convert(entries[i].1);
            let key = entries[i].0.clone();
            out.push(JsonMember { key, value });
            i += 1;
        }
        proof {
            lemma_members_model(out@);
            assert forall|k: Seq<char>| members_model(out@).contains_key(k) == m.contains_key(
                k,
            ) by {
                lemma_last_index(out@, k);
                if m.contains_key(k) {
                    let n = choose|n: int| 0 <= n < entries@.len() && entries@[n].0@ == k;
                    assert(out@[n].key@ == k);
                }
            }
            assert forall|k: Seq<char>| m.contains_key(k) implies members_model(out@)[k] == m[k] by {
                lemma_last_index(out@, k);
            }
            assert(members_model(out@) =~= m);
        }
        return JsonValue::Object(out);
    }
    JsonValue::Null
}

/// Parses `text` as JSON.
///
/// The result is the one that the parser gives: the parsed value rebuilt as
/// a tree, or the parser's error with its line, column and message.
pub fn parse_json(text: &str) -> (r: Result<JsonValue, JsonSyntaxError>)
    ensures
        match r {
            Ok(v) => parsed_json(text@) == Ok::<Json, SyntaxErrorView>(v.model()),
            Err(e) => parsed_json(text@) == Err::<Json, SyntaxErrorView>(e@),
        },
{
    match parse_value(text) {
        Ok(v) => Ok(convert(&v)),
        Err(e) => Err(e),
    }
}

} // verus!
