//! JSON documents, one level at a time.
//!
//! A parsed document is held as its top-level shape; the members of an array
//! or an object are kept as their own JSON text, and are parsed in turn when
//! the logic reads them.
use vstd::prelude::*;
use vstd::utf8::encode_utf8;
use crate::text::str_eq;
use serde_json::Value as SerdeValue;

verus! {

/// A JSON value whose members are held as JSON text.
#[derive(Debug, Clone)]
pub enum JsonValue {
    Null,
    Bool(bool),
    /// The number as JSON writes it.
    Number(String),
    Str(String),
    /// The JSON text of each element, in order.
    Array(Vec<String>),
    /// The member names, and the JSON text of each member's value at the same index.
    Object(Vec<String>, Vec<String>),
}

/// The mathematical view of a [`JsonValue`].
pub enum JsonView {
    Null,
    Bool(bool),
    Number(Seq<char>),
    Str(Seq<char>),
    Array(Seq<Seq<char>>),
    Object(Seq<Seq<char>>, Seq<Seq<char>>),
}

pub open spec fn strings_view(v: Seq<String>) -> Seq<Seq<char>> {
    v.map_values(|s: String| s@)
}

impl View for JsonValue {
    type V = JsonView;

    open spec fn view(&self) -> JsonView {
        match self {
            JsonValue::Null => JsonView::Null,
            JsonValue::Bool(b) => JsonView::Bool(*b),
            JsonValue::Number(n) => JsonView::Number(n@),
            JsonValue::Str(s) => JsonView::Str(s@),
            JsonValue::Array(items) => JsonView::Array(strings_view(items@)),
            JsonValue::Object(keys, vals) => JsonView::Object(strings_view(keys@), strings_view(vals@)),
        }
    }
}

pub open spec fn json_opt_view(v: Option<JsonValue>) -> Option<JsonView> {
    match v {
        Some(x) => Some(x@),
        None => None,
    }
}

/// What `serde_json::from_slice::<serde_json::Value>` gives for `bytes`, or
/// `None` where it refuses them.
pub uninterp spec fn spec_json_parse(bytes: Seq<u8>) -> Option<JsonView>;

/// What the JSON text `t` parses to.
pub open spec fn parse_text(t: Seq<char>) -> Option<JsonView> {
    spec_json_parse(encode_utf8(t))
}

/// The text of the value under `key` in the members `keys`/`vals`: the first
/// name that equals `key`.
pub open spec fn lookup(keys: Seq<Seq<char>>, vals: Seq<Seq<char>>, key: Seq<char>) -> Option<Seq<char>>
    decreases keys.len(),
{
    if keys.len() == 0 || vals.len() == 0 {
        None
    } else if keys[0] == key {
        Some(vals[0])
    } else {
        lookup(keys.drop_first(), vals.drop_first(), key)
    }
}

/// The JSON text of the member `key` of an object; `None` for anything else.
pub open spec fn member_text(v: JsonView, key: Seq<char>) -> Option<Seq<char>> {
    match v {
        JsonView::Object(keys, vals) => lookup(keys, vals, key),
        _ => None,
    }
}

/// The member `key` of an object, parsed (`Value::get`).
pub open spec fn member_value(v: JsonView, key: Seq<char>) -> Option<JsonView> {
    match member_text(v, key) {
        Some(t) => parse_text(t),
        None => None,
    }
}

/// The string that `v` is, if it is one (`Value::as_str`).
pub open spec fn as_str_spec(v: Option<JsonView>) -> Option<Seq<char>> {
    match v {
        Some(JsonView::Str(s)) => Some(s),
        _ => None,
    }
}

/// The element texts of `v`, if it is an array (`Value::as_array`).
pub open spec fn as_array_spec(v: Option<JsonView>) -> Option<Seq<Seq<char>>> {
    match v {
        Some(JsonView::Array(items)) => Some(items),
        _ => None,
    }
}

/// `value.get(key).and_then(Value::as_str)`.
pub open spec fn member_str(v: JsonView, key: Seq<char>) -> Option<Seq<char>> {
    as_str_spec(member_value(v, key))
}

pub open spec fn opt_string_view(v: Option<String>) -> Option<Seq<char>> {
    match v {
        Some(s) => Some(s@),
        None => None,
    }
}

/// `serde_json::from_slice` into a `serde_json::Value`, re-expressed one level
/// deep: the value's kind and scalar, and the JSON text (`Display`) of each
/// element or member. The claim is that this is a function of `bytes`, named
/// `spec_json_parse`; nothing is said of what it is.
#[verifier::external_body]
fn parse_json(bytes: &[u8]) -> (r: Option<JsonValue>)
    ensures
        json_opt_view(r) == spec_json_parse(bytes@),
{
    match serde_json::from_slice::<SerdeValue>(bytes) {
        Err(_) => None,
        Ok(SerdeValue::Null) => Some(JsonValue::Null),
        Ok(SerdeValue::Bool(b)) => Some(JsonValue::Bool(b)),
        Ok(SerdeValue::Number(n)) => Some(JsonValue::Number(n.to_string())),
        Ok(SerdeValue::String(s)) => Some(JsonValue::Str(s)),
        Ok(SerdeValue::Array(a)) => Some(JsonValue::Array(a.iter().map(ToString::to_string).collect())),
        Ok(SerdeValue::Object(m)) => Some(
            JsonValue::Object(m.keys().cloned().collect(), m.values().map(ToString::to_string).collect()),
        ),
    }
}

proof fn lemma_lookup_skip(keys: Seq<Seq<char>>, vals: Seq<Seq<char>>, key: Seq<char>, i: int)
    requires
        0 <= i < keys.len(),
        i < vals.len(),
    ensures
        lookup(keys.skip(i), vals.skip(i), key) == (if keys[i] == key {
            Some(vals[i])
        } else {
            lookup(keys.skip(i + 1), vals.skip(i + 1), key)
        }),
{
    assert(keys.skip(i).drop_first() == keys.skip(i + 1));
    assert(vals.skip(i).drop_first() == vals.skip(i + 1));
}

impl JsonValue {
    /// Parses JSON text.
    pub fn parse(bytes: &[u8]) -> (r: Option<JsonValue>)
        ensures
            json_opt_view(r) == spec_json_parse(bytes@),
    {
        parse_json(bytes)
    }

    /// The JSON text of the member `key`, where `self` is an object that has one.
    pub fn member_text(&self, key: &str) -> (r: Option<String>)
        ensures
            opt_string_view(r) == member_text(self@, key@),
    {
        match self {
            JsonValue::Object(keys, vals) => {
                let ghost kv = strings_view(keys@);
                let ghost vv = strings_view(vals@);
                let mut i: usize = 0;
                assert(kv.skip(0) == kv);
                assert(vv.skip(0) == vv);
                while i < keys.len() && i < vals.len()
                    invariant
                        self@ == JsonView::Object(kv, vv),
                        kv == strings_view(keys@),
                        vv == strings_view(vals@),
                        i <= keys.len(),
                        i <= vals.len(),
                        lookup(kv, vv, key@) == lookup(kv.skip(i as int), vv.skip(i as int), key@),
                    decreases keys.len() - i,
                {
                    proof {
                        lemma_lookup_skip(kv, vv, key@, i as int);
                        assert(kv[i as int] == keys@[i as int]@);
                        assert(vv[i as int] == vals@[i as int]@);
                    }
                    if str_eq(keys[i].as_str(), key) {
                        let r = vals[i].clone();
                        assert(lookup(kv.skip(i as int), vv.skip(i as int), key@) == Some(r@));
                        return Some(r);
                    }
                    i = i + 1;
                }
                proof {
                    if i == keys.len() {
                        assert(kv.skip(i as int).len() == 0);
                    } else {
                        assert(vv.skip(i as int).len() == 0);
                    }
                }
                None
            },
            _ => None,
        }
    }

    /// The member `key`, parsed (`Value::get`).
    pub fn member(&self, key: &str) -> (r: Option<JsonValue>)
        ensures
            json_opt_view(r) == member_value(self@, key@),
    {
        match self.member_text(key) {
            Some(t) => parse_json(t.as_str().as_bytes()),
            None => None,
        }
    }

    /// The string that `self` is, if it is one.
    pub fn as_str(&self) -> (r: Option<String>)
        ensures
            opt_string_view(r) == as_str_spec(Some(self@)),
    {
        match self {
            JsonValue::Str(s) => Some(s.clone()),
            _ => None,
        }
    }

    /// The member `key` as a string (`value.get(key).and_then(Value::as_str)`).
    pub fn member_str(&self, key: &str) -> (r: Option<String>)
        ensures
            opt_string_view(r) == member_str(self@, key@),
    {
        match self.member(key) {
            Some(v) => v.as_str(),
            None => None,
        }
    }
}

} // verus!
