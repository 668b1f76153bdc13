//! JSON documents as the library reads them, and the parser it relies on.
use vstd::prelude::*;

verus! {

#[verifier::external_type_specification]
#[verifier::external_body]
pub struct ExValue(serde_json::Value);

#[verifier::external_type_specification]
#[verifier::external_body]
pub struct ExJsonError(serde_json::Error);

/// A JSON value. A number is held as its decimal text.
#[derive(Debug, PartialEq)]
pub enum Json {
    Null,
    Bool(bool),
    Number(String),
    Str(String),
    Array(Vec<Json>),
    Object(Vec<Member>),
}

/// One member of a JSON object.
#[derive(Debug, PartialEq)]
pub struct Member {
    pub key: String,
    pub value: Json,
}

/// The document that `serde_json` reads from a text, or `None` where the
/// text is not one well-formed JSON document.
pub uninterp spec fn json_doc(s: Seq<char>) -> Option<Json>;

/// The JSON string literal (quoted and escaped) that stands for a text.
pub uninterp spec fn json_quoted(s: Seq<char>) -> Seq<char>;

/// Relies on `serde_json::from_str::<Value>`, whose outcome depends on the
/// text alone; the value is converted one for one by `to_json`.
#[verifier::external_body]
pub(crate) fn parse(s: &str) -> (r: Result<Json, serde_json::Error>)
    ensures
        r is Ok <==> json_doc(s@) is Some,
        r is Ok ==> json_doc(s@) == Some(r->Ok_0),
{
    serde_json::from_str::<serde_json::Value>(s).map(to_json)
}

/// Converts a `serde_json::Value` variant by variant; a number becomes the
/// text that `serde_json::Number`'s `Display` writes. Used by `parse` only.
#[verifier::external_body]
fn to_json(v: serde_json::Value) -> Json {
    match v {
        serde_json::Value::Null => Json::Null,
        serde_json::Value::Bool(b) => Json::Bool(b),
        serde_json::Value::Number(n) => Json::Number(n.to_string()),
        serde_json::Value::String(s) => Json::Str(s),
        serde_json::Value::Array(a) => Json::Array(a.into_iter().map(to_json).collect()),
        serde_json::Value::Object(m) => Json::Object(
            m.into_iter().map(|(key, value)| Member { key, value: to_json(value) }).collect(),
        ),
    }
}

/// Relies on the `Display` impl of `serde_json::Value` on a
/// `Value::String`: it writes the text as a quoted, escaped JSON string.
#[verifier::external_body]
pub(crate) fn quote(s: &str) -> (r: String)
    ensures
        r@ == json_quoted(s@),
{
    serde_json::Value::from(s).to_string()
}

/// The value of the first member from position `i` on whose key is `key`.
pub open spec fn find_member(ms: Seq<Member>, key: Seq<char>, i: int) -> Option<Json>
    decreases ms.len() - i,
{
    if i < 0 || i >= ms.len() {
        None
    } else if ms[i].key@ == key {
        Some(ms[i].value)
    } else {
        find_member(ms, key, i + 1)
    }
}

/// The member of an object under `key`.
pub open spec fn member_spec(j: Json, key: Seq<char>) -> Option<Json> {
    match j {
        Json::Object(ms) => find_member(ms@, key, 0),
        _ => None,
    }
}

/// The element of an array at position `i`.
pub open spec fn element_spec(j: Json, i: int) -> Option<Json> {
    match j {
        Json::Array(a) => if 0 <= i < a@.len() {
            Some(a@[i])
        } else {
            None
        },
        _ => None,
    }
}

/// The text of a JSON string.
pub open spec fn text_spec(j: Json) -> Option<Seq<char>> {
    match j {
        Json::Str(s) => Some(s@),
        _ => None,
    }
}

/// The elements of a JSON array.
pub open spec fn items_spec(j: Json) -> Option<Seq<Json>> {
    match j {
        Json::Array(a) => Some(a@),
        _ => None,
    }
}

/// `member_spec`, looked up in an optional value.
pub open spec fn member_of(j: Option<Json>, key: Seq<char>) -> Option<Json> {
    match j {
        Some(v) => member_spec(v, key),
        None => None,
    }
}

impl Json {
    /// The member of an object under `key`; `None` for any other value.
    pub fn member(&self, key: &str) -> (r: Option<&Json>)
        ensures
            r is Some <==> member_spec(*self, key@) is Some,
            r is Some ==> member_spec(*self, key@) == Some(*r->Some_0),
    {
        match self {
            Json::Object(ms) => {
                let k = String::from_str(key);
                let mut i: usize = 0;
                while i < ms.len()
                    invariant
                        i <= ms@.len(),
                        k@ == key@,
                        member_spec(*self, key@) == find_member(ms@, key@, 0),
                        find_member(ms@, key@, 0) == find_member(ms@, key@, i as int),
                    decreases ms.len() - i,
                {
                    if ms[i].key == k {
                        return Some(&ms[i].value);
                    }
                    i = i + 1;
                }
                None
            },
            _ => None,
        }
    }

    /// The element of an array at position `i`; `None` for any other value.
    pub fn element(&self, i: usize) -> (r: Option<&Json>)
        ensures
            r is Some <==> element_spec(*self, i as int) is Some,
            r is Some ==> element_spec(*self, i as int) == Some(*r->Some_0),
    {
        match self {
            Json::Array(a) => if i < a.len() {
                Some(&a[i])
            } else {
                None
            },
            _ => None,
        }
    }

    /// The text of a JSON string; `None` for any other value.
    pub fn text(&self) -> (r: Option<String>)
        ensures
            r is Some <==> text_spec(*self) is Some,
            r is Some ==> text_spec(*self) == Some(r->Some_0@),
    {
        match self {
            Json::Str(s) => Some(s.clone()),
            _ => None,
        }
    }

    /// The elements of a JSON array; `None` for any other value.
    pub fn items(&self) -> (r: Option<&Vec<Json>>)
        ensures
            r is Some <==> items_spec(*self) is Some,
            r is Some ==> items_spec(*self) == Some(r->Some_0@),
    {
        match self {
            Json::Array(a) => Some(a),
            _ => None,
        }
    }

    /// Whether the value is a JSON number.
    pub fn is_number(&self) -> (r: bool)
        ensures
            r == (*self is Number),
    {
        match self {
            Json::Number(_) => true,
            _ => false,
        }
    }
}

} // verus!
