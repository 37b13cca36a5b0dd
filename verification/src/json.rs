//! JSON values: the mathematical model, the executable tree, and structural
//! equality between trees.

use crate::text::{contains_text, text_set};
use vstd::prelude::*;

verus! {

/// A JSON number: an integer, or a floating-point number given by its
/// IEEE-754 bits with negative zero folded into zero.
pub enum JsonNumberModel {
    Integer(int),
    Float(u64),
}

/// A JSON value as mathematics sees it. An object is a map: the order of its
/// members means nothing.
#[verifier::ext_equal]
pub enum Json {
    Null,
    Bool(bool),
    Number(JsonNumberModel),
    String(Seq<char>),
    Array(Seq<Json>),
    Object(Map<Seq<char>, Json>),
}

/// The bits of the floating-point number negative zero.
pub const NEGATIVE_ZERO_BITS: u64 = 0x8000_0000_0000_0000;

/// `bits`, but zero where they are the bits of negative zero: the two zeros
/// are one number.
pub open spec fn fold_zero(bits: u64) -> u64 {
    if bits == NEGATIVE_ZERO_BITS {
        0
    } else {
        bits
    }
}

/// A JSON number. `Float` holds the IEEE-754 bits of a finite number.
#[derive(Debug, Clone, Copy)]
pub enum JsonNumber {
    PosInt(u64),
    NegInt(i64),
    Float(u64),
}

impl JsonNumber {
    /// The number this stands for.
    pub open spec fn model(self) -> JsonNumberModel {
        match self {
            JsonNumber::PosInt(u) => JsonNumberModel::Integer(u as int),
            JsonNumber::NegInt(i) => JsonNumberModel::Integer(i as int),
            JsonNumber::Float(bits) => JsonNumberModel::Float(fold_zero(bits)),
        }
    }

    /// Whether the two stand for the same number.
    pub fn same_number(&self, other: &JsonNumber) -> (r: bool)
        ensures
            r == (self.model() == other.model()),
    {
        match *self {
            JsonNumber::PosInt(a) => match *other {
                JsonNumber::PosInt(b) => a == b,
                JsonNumber::NegInt(b) => b >= 0 && a == b as u64,
                JsonNumber::Float(_) => false,
            },
            JsonNumber::NegInt(a) => match *other {
                JsonNumber::PosInt(b) => a >= 0 && a as u64 == b,
                JsonNumber::NegInt(b) => a == b,
                JsonNumber::Float(_) => false,
            },
            JsonNumber::Float(a) => match *other {
                JsonNumber::Float(b) => {
                    let x: u64 = if a == NEGATIVE_ZERO_BITS { 0 } else { a };
                    let y: u64 = if b == NEGATIVE_ZERO_BITS { 0 } else { b };
                    x == y
                },
                _ => false,
            },
        }
    }
}

/// One member of a JSON object.
#[derive(Debug)]
pub struct JsonMember {
    pub key: String,
    pub value: JsonValue,
}

/// A JSON value. Where an object names a key twice, the later member counts.
#[derive(Debug)]
pub enum JsonValue {
    Null,
    Bool(bool),
    Number(JsonNumber),
    String(String),
    Array(Vec<JsonValue>),
    Object(Vec<JsonMember>),
}

/// The index of the last member of `members` with the key `key`, or -1.
pub open spec fn last_index(members: Seq<JsonMember>, key: Seq<char>) -> int
    decreases members.len(),
{
    if members.len() == 0 {
        -1
    } else if members.last().key@ == key {
        members.len() - 1
    } else {
        last_index(members.drop_last(), key)
    }
}

/// The map that a list of members stands for.
pub open spec fn members_model(members: Seq<JsonMember>) -> Map<Seq<char>, Json>
    decreases members,
{
    if members.len() == 0 {
        Map::empty()
    } else {
        members_model(members.drop_last()).insert(
            members.last().key@,
            members.last().value.model(),
        )
    }
}

/// The sequence that a list of values stands for.
pub open spec fn items_model(items: Seq<JsonValue>) -> Seq<Json>
    decreases items,
{
    if items.len() == 0 {
        Seq::empty()
    } else {
        items_model(items.drop_last()).push(items.last().model())
    }
}

/// What `last_index` finds: the member at the index has the key and none
/// after it has; -1 means that no member has the key.
pub proof fn lemma_last_index(members: Seq<JsonMember>, key: Seq<char>)
    ensures
        -1 <= last_index(members, key) < members.len(),
        last_index(members, key) >= 0 ==> members[last_index(members, key)].key@ == key,
        forall|j: int| last_index(members, key) < j < members.len() ==> members[j].key@ != key,
    decreases members.len(),
{
    if members.len() > 0 && members.last().key@ != key {
        lemma_last_index(members.drop_last(), key);
        assert forall|j: int| last_index(members, key) < j < members.len() implies members[j].key@
            != key by {
            if j < members.len() - 1 {
                assert(members.drop_last()[j] == members[j]);
            }
        }
    }
}

/// The model of a list of values has the model of each value at its place.
pub proof fn lemma_items_model(items: Seq<JsonValue>)
    ensures
        items_model(items).len() == items.len(),
        forall|i: int| 0 <= i < items.len() ==> items_model(items)[i] == items[i].model(),
    decreases items.len(),
{
    if items.len() > 0 {
        lemma_items_model(items.drop_last());
    }
}

/// The model of a list of members holds exactly the keys that occur, each
/// with the value of its last member.
pub proof fn lemma_members_model(members: Seq<JsonMember>)
    ensures
        forall|k: Seq<char>| #[trigger]
            members_model(members).contains_key(k) <==> last_index(members, k) >= 0,
        forall|k: Seq<char>|
            last_index(members, k) >= 0 ==> #[trigger] members_model(members)[k] == members[last_index(
                members,
                k,
            )].value.model(),
    decreases members.len(),
{
    if members.len() > 0 {
        lemma_members_model(members.drop_last());
        assert forall|k: Seq<char>| last_index(members, k) >= 0 implies #[trigger] members_model(
            members,
        )[k] == members[last_index(members, k)].value.model() by {
            if members.last().key@ != k {
                lemma_last_index(members.drop_last(), k);
            }
        }
    }
}

/// A key that occurs among the members is found by `last_index`.
pub proof fn lemma_last_index_finds(members: Seq<JsonMember>, key: Seq<char>, i: int)
    requires
        0 <= i < members.len(),
        members[i].key@ == key,
    ensures
        last_index(members, key) >= i,
{
    lemma_last_index(members, key);
}

/// The index of the last member of `members` with the key `key`.
pub fn find_last(members: &Vec<JsonMember>, key: &String) -> (r: Option<usize>)
    ensures
        match r {
            Some(i) => i < members@.len() && i == last_index(members@, key@),
            None => last_index(members@, key@) == -1,
        },
{
    let mut i: usize = members.len();
    while i > 0
        invariant
            i <= members@.len(),
            forall|j: int| i <= j < members@.len() ==> members@[j].key@ != key@,
        decreases i,
    {
        i -= 1;
        if members[i].key == *key {
            proof {
                lemma_last_index(members@, key@);
            }
            return Some(i);
        }
    }
    proof {
        lemma_last_index(members@, key@);
    }
    None
}

/// Whether the two lists of members stand for the same map once the keys in
/// `skip` are taken out of both.
pub fn members_equal(a: &Vec<JsonMember>, b: &Vec<JsonMember>, skip: &Vec<String>) -> (r: bool)
    ensures
        r == (members_model(a@).remove_keys(text_set(skip@)) == members_model(b@).remove_keys(
            text_set(skip@),
        )),
    decreases a,
{
    let ghost ma = members_model(a@);
    let ghost mb = members_model(b@);
    let ghost gone = text_set(skip@);
    proof {
        lemma_members_model(a@);
        lemma_members_model(b@);
    }
    let mut i: usize = 0;
    while i < a.len()
        invariant
            i <= a@.len(),
            ma == members_model(a@),
            mb == members_model(b@),
            gone == text_set(skip@),
            forall|k: Seq<char>| #[trigger]
                ma.contains_key(k) <==> last_index(a@, k) >= 0,
            forall|k: Seq<char>|
                last_index(a@, k) >= 0 ==> #[trigger] ma[k] == a@[last_index(a@, k)].value.model(),
            forall|k: Seq<char>| #[trigger]
                mb.contains_key(k) <==> last_index(b@, k) >= 0,
            forall|k: Seq<char>|
                last_index(b@, k) >= 0 ==> #[trigger] mb[k] == b@[last_index(b@, k)].value.model(),
            forall|j: int|
                0 <= j < i && !gone.contains(#[trigger] a@[j].key@) ==> mb.contains_key(a@[j].key@)
                    && mb[a@[j].key@] == ma[a@[j].key@],
        decreases a@.len() - i,
    {
        let key = &a[i].key;
        proof {
            lemma_last_index_finds(a@, key@, i as int);
        }
        if !contains_text(skip, key) {
            let la = find_last(a, key);
            let lb = find_last(b, key);
            match la {
                Some(la) => match lb {
                    Some(lb) => {
                        if !a[la].value.deep_equal(&b[lb].value) {
                            assert(ma.remove_keys(gone).contains_key(key@));
                            assert(ma.remove_keys(gone)[key@] != mb.remove_keys(gone)[key@]);
                            return false;
                        }
                    },
                    None => {
                        assert(ma.remove_keys(gone).contains_key(key@));
                        assert(!mb.remove_keys(gone).contains_key(key@));
                        return false;
                    },
                },
                None => {
                    return false;
                },
            }
        }
        i += 1;
    }
    let mut j: usize = 0;
    while j < b.len()
        invariant
            j <= b@.len(),
            ma == members_model(a@),
            mb == members_model(b@),
            gone == text_set(skip@),
            forall|k: Seq<char>| #[trigger]
                ma.contains_key(k) <==> last_index(a@, k) >= 0,
            forall|k: Seq<char>| #[trigger]
                mb.contains_key(k) <==> last_index(b@, k) >= 0,
            forall|n: int|
                0 <= n < j && !gone.contains(#[trigger] b@[n].key@) ==> ma.contains_key(b@[n].key@),
        decreases b@.len() - j,
    {
        let key = &b[j].key;
        proof {
            lemma_last_index_finds(b@, key@, j as int);
        }
        if !contains_text(skip, key) {
            if find_last(a, key).is_none() {
                assert(mb.remove_keys(gone).contains_key(key@));
                assert(!ma.remove_keys(gone).contains_key(key@));
                return false;
            }
        }
        j += 1;
    }
    proof {
        assert forall|k: Seq<char>|
            ma.remove_keys(gone).contains_key(k) == mb.remove_keys(gone).contains_key(k) by {
            lemma_last_index(a@, k);
            lemma_last_index(b@, k);
        }
        assert forall|k: Seq<char>| ma.remove_keys(gone).contains_key(k) implies ma.remove_keys(
            gone,
        )[k] == mb.remove_keys(gone)[k] by {
            lemma_last_index(a@, k);
        }
        assert(ma.remove_keys(gone) =~= mb.remove_keys(gone));
    }
    true
}

/// Taking no key out of a map leaves the map.
pub proof fn lemma_remove_no_keys(m: Map<Seq<char>, Json>)
    ensures
        m.remove_keys(text_set(Seq::<String>::empty())) == m,
{
    assert(m.remove_keys(text_set(Seq::<String>::empty())) =~= m);
}

impl JsonValue {
    /// The value this tree stands for.
    pub open spec fn model(self) -> Json
        decreases self,
    {
        match self {
            JsonValue::Null => Json::Null,
            JsonValue::Bool(b) => Json::Bool(b),
            JsonValue::Number(n) => Json::Number(n.model()),
            JsonValue::String(s) => Json::String(s@),
            JsonValue::Array(items) => Json::Array(items_model(items@)),
            JsonValue::Object(members) => Json::Object(members_model(members@)),
        }
    }

    /// Whether this is `null`.
    pub fn is_null(&self) -> (r: bool)
        ensures
            r == (self.model() is Null),
    {
        match self {
            JsonValue::Null => true,
            _ => false,
        }
    }

    /// Whether this is `true` or `false`.
    pub fn is_boolean(&self) -> (r: bool)
        ensures
            r == (self.model() is Bool),
    {
        match self {
            JsonValue::Bool(_) => true,
            _ => false,
        }
    }

    /// Whether this is a number.
    pub fn is_number(&self) -> (r: bool)
        ensures
            r == (self.model() is Number),
    {
        match self {
            JsonValue::Number(_) => true,
            _ => false,
        }
    }

    /// Whether this is a string.
    pub fn is_string(&self) -> (r: bool)
        ensures
            r == (self.model() is String),
    {
        match self {
            JsonValue::String(_) => true,
            _ => false,
        }
    }

    /// Whether this is an array.
    pub fn is_array(&self) -> (r: bool)
        ensures
            r == (self.model() is Array),
    {
        match self {
            JsonValue::Array(_) => true,
            _ => false,
        }
    }

    /// Whether this is an object.
    pub fn is_object(&self) -> (r: bool)
        ensures
            r == (self.model() is Object),
    {
        match self {
            JsonValue::Object(_) => true,
            _ => false,
        }
    }

    /// The value under `key`, where this is an object that has the key.
    pub fn get(&self, key: &str) -> (r: Option<&JsonValue>)
        ensures
            match r {
                Some(v) => self.model() is Object && self.model()->Object_0.contains_key(key@)
                    && v.model() == self.model()->Object_0[key@],
                None => !(self.model() is Object && self.model()->Object_0.contains_key(key@)),
            },
    {
        match self {
            JsonValue::Object(members) => {
                let wanted = String::from_str(key);
                proof {
                    lemma_members_model(members@);
                }
                match find_last(members, &wanted) {
                    Some(i) => Some(&members[i].value),
                    None => None,
                }
            },
            _ => None,
        }
    }

    /// Whether this is an object that has the key `key`.
    pub fn contains_key(&self, key: &str) -> (r: bool)
        ensures
            r == (self.model() is Object && self.model()->Object_0.contains_key(key@)),
    {
        self.get(key).is_some()
    }

    /// Whether the two trees stand for the same value: equal scalars, arrays
    /// equal place by place, objects equal key by key.
    #[verifier::loop_isolation(false)]
    pub fn deep_equal(&self, other: &JsonValue) -> (r: bool)
        ensures
            r == (self.model() == other.model()),
        decreases self,
    {
        match self {
            JsonValue::Null => other.is_null(),
            JsonValue::Bool(a) => match other {
                JsonValue::Bool(b) => *a == *b,
                _ => false,
            },
            JsonValue::Number(a) => match other {
                JsonValue::Number(b) => a.same_number(b),
                _ => false,
            },
            JsonValue::String(a) => match other {
                JsonValue::String(b) => *a == *b,
                _ => false,
            },
            JsonValue::Array(a) => match other {
                JsonValue::Array(b) => {
                    proof {
                        lemma_items_model(a@);
                        lemma_items_model(b@);
                    }
                    if a.len() != b.len() {
                        return false;
                    }
                    let mut i: usize = 0;
                    while i < a.len()
                        invariant
                            i <= a@.len(),
                            a@.len() == b@.len(),
                            items_model(a@).len() == a@.len(),
                            items_model(b@).len() == b@.len(),
                            forall|k: int|
                                0 <= k < a@.len() ==> items_model(a@)[k] == a@[k].model(),
                            forall|k: int|
                                0 <= k < b@.len() ==> items_model(b@)[k] == b@[k].model(),
                            forall|k: int| 0 <= k < i ==> a@[k].model() == b@[k].model(),
                        decreases a@.len() - i,
                    {
                        if !a[i].deep_equal(&b[i]) {
                            assert(items_model(a@)[i as int] != items_model(b@)[i as int]);
                            return false;
                        }
                        i += 1;
                    }
                    assert(items_model(a@) =~= items_model(b@));
                    true
                },
                _ => false,
            },
            JsonValue::Object(a) => match other {
                JsonValue::Object(b) => {
                    let none: Vec<String> = Vec::new();
                    proof {
                        lemma_remove_no_keys(members_model(a@));
                        lemma_remove_no_keys(members_model(b@));
                    }
                    members_equal(a, b, &none)
                },
                _ => false,
            },
        }
    }
}

} // verus!
