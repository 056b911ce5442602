//! JSON documents as plain values, and looking up the members of an
//! object.

use vstd::prelude::*;
use crate::text::str_eq;

verus! {

/// A JSON value; a number keeps its text.
#[derive(Debug)]
pub enum JsonValue {
    Null,
    Bool(bool),
    Number(String),
    Text(String),
    Array(Vec<JsonValue>),
    Object(Vec<(String, JsonValue)>),
}

/// The contents of a JSON value.
pub enum JsonV {
    Null,
    Bool(bool),
    Number(Seq<char>),
    Text(Seq<char>),
    Array(Seq<JsonV>),
    Object(Seq<(Seq<char>, JsonV)>),
}

impl JsonValue {
    /// The contents of the value.
    pub open spec fn contents(self) -> JsonV
        decreases self,
    {
        match self {
            JsonValue::Null => JsonV::Null,
            JsonValue::Bool(b) => JsonV::Bool(b),
            JsonValue::Number(n) => JsonV::Number(n@),
            JsonValue::Text(t) => JsonV::Text(t@),
            JsonValue::Array(a) => JsonV::Array(
                Seq::new(
                    a@.len(),
                    |i: int|
                        if 0 <= i < a@.len() {
                            proof {
                                assert(decreases_to!(a => a@[i]));
                            }
                            a@[i].contents()
                        } else {
                            JsonV::Null
                        },
                ),
            ),
            JsonValue::Object(o) => JsonV::Object(
                Seq::new(
                    o@.len(),
                    |i: int|
                        if 0 <= i < o@.len() {
                            proof {
                                assert(decreases_to!(o => o@[i].1));
                            }
                            (o@[i].0@, o@[i].1.contents())
                        } else {
                            (Seq::empty(), JsonV::Null)
                        },
                ),
            ),
        }
    }
}

/// The contents of an object's members.
pub open spec fn members_contents(o: Seq<(String, JsonValue)>) -> Seq<(Seq<char>, JsonV)> {
    Seq::new(o.len(), |i: int| (o[i].0@, o[i].1.contents()))
}

/// The contents of an object are the contents of its members.
pub proof fn lemma_object_contents(o: Vec<(String, JsonValue)>)
    ensures
        JsonValue::Object(o).contents() == JsonV::Object(members_contents(o@)),
{
    let c = JsonValue::Object(o).contents();
    match c {
        JsonV::Object(ms) => {
            assert(ms.len() == o@.len());
            assert forall|i: int| 0 <= i < ms.len() implies ms[i] == members_contents(o@)[i] by {}
            assert(ms =~= members_contents(o@));
        },
        _ => {},
    }
}

/// `i` is the first member named `key`.
pub open spec fn is_first_member(ms: Seq<(Seq<char>, JsonV)>, key: Seq<char>, i: int) -> bool {
    &&& 0 <= i < ms.len()
    &&& ms[i].0 == key
    &&& forall|j: int| 0 <= j < i ==> ms[j].0 != key
}

/// The value of the member named `key` (`Map::get`; a document's object
/// has one member of each name).
pub open spec fn member(ms: Seq<(Seq<char>, JsonV)>, key: Seq<char>) -> Option<JsonV> {
    if exists|i: int| is_first_member(ms, key, i) {
        Some(ms[choose|i: int| is_first_member(ms, key, i)].1)
    } else {
        None
    }
}

/// The member named `key` of an object value (`Value::get`), or `None`
/// for a value that is not an object.
pub open spec fn field(v: JsonV, key: Seq<char>) -> Option<JsonV> {
    match v {
        JsonV::Object(ms) => member(ms, key),
        _ => None,
    }
}

proof fn lemma_first_member_unique(ms: Seq<(Seq<char>, JsonV)>, key: Seq<char>, i: int, k: int)
    requires
        is_first_member(ms, key, i),
        is_first_member(ms, key, k),
    ensures
        i == k,
{
    if i < k {
        assert(ms[i].0 != key);
    } else if k < i {
        assert(ms[k].0 != key);
    }
}

/// The value of the member named `key`.
pub fn get_member<'a>(o: &'a Vec<(String, JsonValue)>, key: &str) -> (r: Option<&'a JsonValue>)
    ensures
        match r {
            Some(v) => member(members_contents(o@), key@) == Some(v.contents()),
            None => member(members_contents(o@), key@) is None,
        },
{
    let ghost ms = members_contents(o@);
    let mut i: usize = 0;
    while i < o.len()
        invariant
            i <= o.len(),
            ms == members_contents(o@),
            forall|j: int| 0 <= j < i ==> ms[j].0 != key@,
        decreases o.len() - i,
    {
        if str_eq(o[i].0.as_str(), key) {
            assert(is_first_member(ms, key@, i as int));
            proof {
                let k = choose|k: int| is_first_member(ms, key@, k);
                lemma_first_member_unique(ms, key@, i as int, k);
            }
            return Some(&o[i].1);
        }
        i += 1;
    }
    assert(!exists|k: int| is_first_member(ms, key@, k)) by {
        if exists|k: int| is_first_member(ms, key@, k) {
            let k = choose|k: int| is_first_member(ms, key@, k);
            assert(ms[k].0 != key@);
        }
    }
    None
}

// ---------------------------------------------------------------------------
// Reading JSON text
// ---------------------------------------------------------------------------

/// `serde_json`'s parsed value, carried only into the conversion below.
#[verifier::external_type_specification]
#[verifier::external_body]
pub struct ExSerdeJsonValue(serde_json::Value);

/// The JSON document in a text, as `serde_json::from_str` reads it, or
/// `None` when it is not JSON.
pub uninterp spec fn json_text(text: Seq<char>) -> Option<JsonV>;

/// `serde_json::from_str::<serde_json::Value>`: the document in `text`,
/// converted variant for variant (a number keeps its text), or `None` when
/// `serde_json` rejects the text.  The result depends on the text alone and
/// is named `json_text`; what `serde_json` accepts is not restated here.
#[verifier::external_body]
pub fn parse_json(text: &str) -> (r: Option<JsonValue>)
    ensures
        match r {
            Some(v) => json_text(text@) == Some(v.contents()),
            None => json_text(text@) is None,
        },
{
    serde_json::from_str::<serde_json::Value>(text).ok().map(json_value)
}

/// The conversion of a parsed `serde_json::Value` used by `parse_json`,
/// variant for variant; `parse_json` states the result.
#[verifier::external_body]
fn json_value(v: serde_json::Value) -> JsonValue {
    match v {
        serde_json::Value::Null => JsonValue::Null,
        serde_json::Value::Bool(b) => JsonValue::Bool(b),
        serde_json::Value::Number(n) => JsonValue::Number(n.to_string()),
        serde_json::Value::String(s) => JsonValue::Text(s),
        serde_json::Value::Array(a) => JsonValue::Array(a.into_iter().map(json_value).collect()),
        serde_json::Value::Object(m) => JsonValue::Object(m.into_iter().map(|(k, v)| (k, json_value(v))).collect()),
    }
}

} // verus!
