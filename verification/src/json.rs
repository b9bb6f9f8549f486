use vstd::prelude::*;
use crate::text::str_eq;

verus! {

/// A decoded JSON document.
#[derive(Debug, PartialEq, Eq)]
pub enum Json {
    Null,
    Bool(bool),
    /// A number: its value where it is a non-negative integer that fits in 64 bits, and
    /// its text.
    Number(Option<u64>, String),
    Text(String),
    Array(Vec<Json>),
    /// An object's members, each a key with its value.
    Object(Vec<(String, Json)>),
}

/// The mathematical value of a JSON document.
pub enum JsonValue {
    Null,
    Bool(bool),
    Number(Option<u64>, Seq<char>),
    Text(Seq<char>),
    Array(Seq<JsonValue>),
    Object(Seq<(Seq<char>, JsonValue)>),
}

impl Json {
    /// The mathematical value of this document.
    pub open spec fn value(self) -> JsonValue
        decreases self,
    {
        match self {
            Json::Null => JsonValue::Null,
            Json::Bool(b) => JsonValue::Bool(b),
            Json::Number(n, text) => JsonValue::Number(n, text@),
            Json::Text(s) => JsonValue::Text(s@),
            Json::Array(items) => JsonValue::Array(
                Seq::new(
                    items@.len(),
                    |i: int|
                        if 0 <= i < items@.len() {
                            items@[i].value()
                        } else {
                            JsonValue::Null
                        },
                ),
            ),
            Json::Object(members) => JsonValue::Object(
                Seq::new(
                    members@.len(),
                    |i: int|
                        if 0 <= i < members@.len() {
                            (members@[i].0@, members@[i].1.value())
                        } else {
                            (Seq::empty(), JsonValue::Null)
                        },
                ),
            ),
        }
    }
}

impl View for Json {
    type V = JsonValue;

    open spec fn view(&self) -> JsonValue {
        self.value()
    }
}

/// The values of an object's members, in order.
pub open spec fn members_view(members: Seq<(String, Json)>) -> Seq<(Seq<char>, JsonValue)> {
    Seq::new(members.len(), |i: int| (members[i].0@, members[i].1@))
}

/// The value of the first member at or after `from` whose key is `key`.
pub open spec fn member_from(
    members: Seq<(Seq<char>, JsonValue)>,
    key: Seq<char>,
    from: int,
) -> Option<JsonValue>
    decreases members.len() - from,
{
    if from < 0 || from >= members.len() {
        None
    } else if members[from].0 == key {
        Some(members[from].1)
    } else {
        member_from(members, key, from + 1)
    }
}

/// The value that an object holds under `key`: that of its first member with that key.
/// A document that is no object holds nothing.
pub open spec fn member(doc: JsonValue, key: Seq<char>) -> Option<JsonValue> {
    match doc {
        JsonValue::Object(members) => member_from(members, key, 0),
        _ => None,
    }
}

/// The text of a JSON string.
pub open spec fn text_of(doc: JsonValue) -> Option<Seq<char>> {
    match doc {
        JsonValue::Text(s) => Some(s),
        _ => None,
    }
}

/// The value of a JSON number that is a non-negative integer within 64 bits.
pub open spec fn u64_of(doc: JsonValue) -> Option<u64> {
    match doc {
        JsonValue::Number(n, _) => n,
        _ => None,
    }
}

/// The value of a JSON boolean.
pub open spec fn bool_of(doc: JsonValue) -> Option<bool> {
    match doc {
        JsonValue::Bool(b) => Some(b),
        _ => None,
    }
}

/// The value of a document that may be missing.
pub open spec fn decoded_view(decoded: Option<Json>) -> Option<JsonValue> {
    match decoded {
        Some(doc) => Some(doc@),
        None => None,
    }
}

/// The view of an object is the view of its members.
pub proof fn lemma_object_view(members: Vec<(String, Json)>)
    ensures
        Json::Object(members)@ == JsonValue::Object(members_view(members@)),
{
    assert(Json::Object(members)@->Object_0 =~= members_view(members@));
}

/// The document that a JSON text decodes to, where it is well-formed JSON.
pub uninterp spec fn json_decoded(body: Seq<u8>) -> Option<JsonValue>;

/// `serde_json::Value`, on its way from the decoder to [`Json`]. Nothing is known of
/// what it holds.
#[verifier::external_type_specification]
#[verifier::external_body]
pub struct ExValue(serde_json::Value);

/// Turns a `serde_json::Value` into a [`Json`], variant by variant. A number keeps what
/// `Number::as_u64` gives and the text that `Number`'s `Display` gives; an object's
/// members come in the order in which `serde_json::Map` hands them out.
#[verifier::external_body]
fn json_of_value(value: serde_json::Value) -> Json {
    match value {
        serde_json::Value::Null => Json::Null,
        serde_json::Value::Bool(b) => Json::Bool(b),
        serde_json::Value::Number(n) => Json::Number(n.as_u64(), n.to_string()),
        serde_json::Value::String(s) => Json::Text(s),
        serde_json::Value::Array(items) => Json::Array(
            items.into_iter().map(json_of_value).collect(),
        ),
        serde_json::Value::Object(members) => Json::Object(
            members.into_iter().map(|(k, v)| (k, json_of_value(v))).collect(),
        ),
    }
}

/// Decodes a JSON text with `serde_json::from_slice`. The result depends on the bytes
/// alone: it is the document named by [`json_decoded`], and nothing where
/// `serde_json` reports an error.
#[verifier::external_body]
fn decode_json(body: &[u8]) -> (r: Option<Json>)
    ensures
        decoded_view(r) == json_decoded(body@),
{
    serde_json::from_slice::<serde_json::Value>(body).ok().map(json_of_value)
}

impl Json {
    /// Decodes a JSON text.
    pub fn decode(body: &[u8]) -> (r: Option<Json>)
        ensures
            decoded_view(r) == json_decoded(body@),
    {
        decode_json(body)
    }

    /// The value that this object holds under `key`.
    pub fn get(&self, key: &str) -> (r: Option<&Json>)
        ensures
            match r {
                Some(v) => member(self@, key@) == Some(v@),
                None => member(self@, key@) is None,
            },
    {
        match self {
            Json::Object(members) => {
                proof {
                    lemma_object_view(*members);
                }
                let mut i: usize = 0;
                while i < members.len()
                    invariant
                        i <= members.len(),
                        member(self@, key@) == member_from(members_view(members@), key@, i as int),
                    decreases members.len() - i,
                {
                    if str_eq(members[i].0.as_str(), key) {
                        return Some(&members[i].1);
                    }
                    i = i + 1;
                }
                None
            },
            _ => None,
        }
    }

    /// Takes out of this object the value that it holds under `key`.
    pub fn into_member(self, key: &str) -> (r: Option<Json>)
        ensures
            match r {
                Some(v) => member(self@, key@) == Some(v@),
                None => member(self@, key@) is None,
            },
    {
        let ghost wanted = member(self@, key@);
        match self {
            Json::Object(members) => {
                proof {
                    lemma_object_view(members);
                }
                let ghost all = members_view(members@);
                for m in it: members
                    invariant
                        it.seq() == members@,
                        all == members_view(members@),
                        wanted == member(self@, key@),
                        wanted == member_from(all, key@, it.index() as int),
                {
                    if str_eq(m.0.as_str(), key) {
                        return Some(m.1);
                    }
                }
                None
            },
            _ => None,
        }
    }

    /// The text of a JSON string.
    pub fn as_str(&self) -> (r: Option<&str>)
        ensures
            match r {
                Some(s) => text_of(self@) == Some(s@),
                None => text_of(self@) is None,
            },
    {
        match self {
            Json::Text(s) => Some(s.as_str()),
            _ => None,
        }
    }

    /// The value of a JSON number that is a non-negative integer within 64 bits.
    pub fn as_u64(&self) -> (r: Option<u64>)
        ensures
            r == u64_of(self@),
    {
        match self {
            Json::Number(n, _) => *n,
            _ => None,
        }
    }

    /// The value of a JSON boolean.
    pub fn as_bool(&self) -> (r: Option<bool>)
        ensures
            r == bool_of(self@),
    {
        match self {
            Json::Bool(b) => Some(*b),
            _ => None,
        }
    }
}

} // verus!
