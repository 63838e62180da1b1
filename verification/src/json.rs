//! The JSON document model shared by the clients, and its parser.

use vstd::prelude::*;

verus! {

/// A JSON document as the query APIs use it. Numbers keep their source
/// text, so that the model stays exact whatever the server sends.
#[derive(Debug)]
pub enum JsonValue {
    Null,
    Bool(bool),
    Num(String),
    Text(String),
    Arr(Vec<JsonValue>),
    Obj(Vec<(String, JsonValue)>),
}

/// The first entry of `entries` whose key reads `key`, if any.
pub open spec fn obj_get(entries: Seq<(String, JsonValue)>, key: Seq<char>) -> Option<JsonValue>
    decreases entries.len(),
{
    if entries.len() == 0 {
        None
    } else if entries[0].0@ == key {
        Some(entries[0].1)
    } else {
        obj_get(entries.skip(1), key)
    }
}

/// The field named `key` of `v`, if `v` is an object that has one.
pub open spec fn get_field(v: JsonValue, key: Seq<char>) -> Option<JsonValue> {
    match v {
        JsonValue::Obj(entries) => obj_get(entries@, key),
        _ => None,
    }
}

/// The string field named `key` of `v`, if present and a string.
pub open spec fn get_text(v: JsonValue, key: Seq<char>) -> Option<String> {
    match get_field(v, key) {
        Some(JsonValue::Text(s)) => Some(s),
        _ => None,
    }
}

proof fn lemma_obj_get_skip(entries: Seq<(String, JsonValue)>, key: Seq<char>, i: int)
    requires
        0 <= i < entries.len(),
        forall|j: int| 0 <= j < i ==> entries[j].0@ != key,
        entries[i].0@ == key,
    ensures
        obj_get(entries, key) == Some(entries[i].1),
    decreases i,
{
    if i > 0 {
        lemma_obj_get_skip(entries.skip(1), key, i - 1);
    }
}

proof fn lemma_obj_get_none(entries: Seq<(String, JsonValue)>, key: Seq<char>)
    requires
        forall|j: int| 0 <= j < entries.len() ==> entries[j].0@ != key,
    ensures
        obj_get(entries, key) is None,
    decreases entries.len(),
{
    if entries.len() > 0 {
        lemma_obj_get_none(entries.skip(1), key);
    }
}

impl JsonValue {
    /// Looks a field up by name, matching [`get_field`].
    #[verifier::loop_isolation(false)]
    pub fn field<'a>(&'a self, key: &str) -> (r: Option<&'a JsonValue>)
        ensures
            match r {
                Some(f) => get_field(*self, key@) == Some(*f),
                None => get_field(*self, key@) is None,
            },
    {
        match self {
            JsonValue::Obj(entries) => {
                let n = entries.len();
                let mut i: usize = 0;
                while i < n
                    invariant
                        i <= n,
                        n == entries@.len(),
                        forall|j: int| 0 <= j < i ==> entries@[j].0@ != key@,
                    decreases n - i,
                {
                    if crate::strutil::str_eq(entries[i].0.as_str(), key) {
                        proof {
                            lemma_obj_get_skip(entries@, key@, i as int);
                        }
                        return Some(&entries[i].1);
                    }
                    i = i + 1;
                }
                proof {
                    lemma_obj_get_none(entries@, key@);
                }
                None
            },
            _ => None,
        }
    }

    /// Looks a string field up by name, matching [`get_text`].
    pub fn text_field<'a>(&'a self, key: &str) -> (r: Option<&'a String>)
        ensures
            match r {
                Some(s) => get_text(*self, key@) == Some(*s),
                None => get_text(*self, key@) is None,
            },
    {
        match self.field(key) {
            Some(JsonValue::Text(s)) => Some(s),
            _ => None,
        }
    }
}

/// Prefixes every element of an intact partial decoding with `pre`; an
/// error passes through.
pub open spec fn prepend_decoded<T>(pre: Seq<T>, r: Result<Seq<T>, Seq<char>>) -> Result<
    Seq<T>,
    Seq<char>,
> {
    match r {
        Ok(rest) => Ok(pre + rest),
        Err(w) => Err(w),
    }
}

/// What `serde_json` parses the given text into, translated to
/// [`JsonValue`]; `None` where the text is not well-formed JSON.
pub uninterp spec fn json_of(s: Seq<char>) -> Option<JsonValue>;

/// Relies on `serde_json::from_str::<serde_json::Value>`: parses JSON text;
/// the result is a function of the text alone.
#[verifier::external_body]
pub fn parse_json(s: &str) -> (r: Option<JsonValue>)
    ensures
        r == json_of(s@),
{
    match serde_json::from_str::<serde_json::Value>(s) {
        Ok(v) => Some(from_serde(v)),
        Err(_) => None,
    }
}

/// Declares `serde_json::Value`, the parser's own document type, so that
/// the translation below can take it.
#[verifier::external_type_specification]
#[verifier::external_body]
pub struct ExValue(serde_json::Value);

/// Relies on the `serde_json::Value` representation: translates each of its
/// variants to the matching [`JsonValue`] variant, one for one; a number
/// keeps the text `serde_json` prints for it.
#[verifier::external_body]
fn from_serde(v: serde_json::Value) -> JsonValue {
    match v {
        serde_json::Value::Null => JsonValue::Null,
        serde_json::Value::Bool(b) => JsonValue::Bool(b),
        serde_json::Value::Number(n) => JsonValue::Num(n.to_string()),
        serde_json::Value::String(s) => JsonValue::Text(s),
        serde_json::Value::Array(a) => JsonValue::Arr(a.into_iter().map(from_serde).collect()),
        serde_json::Value::Object(o) => JsonValue::Obj(
            o.into_iter().map(|(k, x)| (k, from_serde(x))).collect(),
        ),
    }
}

} // verus!
