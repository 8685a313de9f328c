use vstd::prelude::*;

verus! {

/// A JSON number, as the two readings the protocol needs.
#[derive(Debug, Clone, PartialEq)]
pub struct JsonNumber {
    /// The number as a signed 64-bit integer, where it is one.
    pub integer: Option<i64>,
    /// The number as a 64-bit float, by its IEEE-754 bit pattern.
    pub float_bits: Option<u64>,
}

/// One name and value of a JSON object.
#[derive(Debug, PartialEq)]
pub struct JsonMember {
    pub name: String,
    pub value: Json,
}

/// A JSON document as plain data.
#[derive(Debug, PartialEq)]
pub enum Json {
    Null,
    Bool(bool),
    Number(JsonNumber),
    Text(String),
    Array(Vec<Json>),
    Object(Vec<JsonMember>),
}

#[verifier::external_type_specification]
#[verifier::external_body]
pub struct ExJsonValue(serde_json::Value);

/// The document that `text` is the JSON notation of, or `None` where `text`
/// is not one JSON value.
pub uninterp spec fn json_document(text: Seq<char>) -> Option<Json>;

/// Copies a `serde_json::Value` into a `Json`, variant by variant. A number
/// is read with `Number::as_i64` and `Number::as_f64`; an object's members
/// come in the order in which its map yields them, each name once.
#[verifier::external_body]
fn json_of_value(value: &serde_json::Value) -> Json {
    match value {
        serde_json::Value::Null => Json::Null,
        serde_json::Value::Bool(b) => Json::Bool(*b),
        serde_json::Value::Number(n) => Json::Number(
            JsonNumber { integer: n.as_i64(), float_bits: n.as_f64().map(|x| x.to_bits()) },
        ),
        serde_json::Value::String(s) => Json::Text(s.clone()),
        serde_json::Value::Array(items) => Json::Array(items.iter().map(json_of_value).collect()),
        serde_json::Value::Object(map) => Json::Object(
            map.iter().map(|(k, v)| JsonMember { name: k.clone(), value: json_of_value(v) }).collect(),
        ),
    }
}

/// Calls `serde_json::from_str` for a `serde_json::Value`. The contract only
/// names the outcome: the document on success, and `None` exactly where the
/// parser reports an error.
#[verifier::external_body]
pub(crate) fn parse_json(text: &str) -> (r: Option<Json>)
    ensures
        r == json_document(text@),
{
    serde_json::from_str::<serde_json::Value>(text).ok().map(|v| json_of_value(&v))
}

/// The value of the first of `members`, from position `from` on, that is
/// named `key`.
pub open spec fn find_member(members: Seq<JsonMember>, key: Seq<char>, from: int) -> Option<Json>
    decreases members.len() - from,
{
    if from < 0 || from >= members.len() {
        None
    } else if members[from].name@ == key {
        Some(members[from].value)
    } else {
        find_member(members, key, from + 1)
    }
}

impl Json {
    /// The value under `key`, where this is an object that has such a member.
    pub open spec fn spec_member(self, key: Seq<char>) -> Option<Json> {
        match self {
            Json::Object(members) => find_member(members@, key, 0),
            _ => None,
        }
    }

    /// The text under `key`, where there is a member of that name and it is
    /// a string.
    pub open spec fn spec_text(self, key: Seq<char>) -> Option<String> {
        match self.spec_member(key) {
            Some(Json::Text(s)) => Some(s),
            _ => None,
        }
    }

    /// The text under `key`; `Some(None)` where the member is absent or null,
    /// `None` where it holds anything but a string.
    pub open spec fn spec_optional_text(self, key: Seq<char>) -> Option<Option<String>> {
        match self.spec_member(key) {
            Some(Json::Text(s)) => Some(Some(s)),
            Some(Json::Null) => Some(None),
            None => Some(None),
            _ => None,
        }
    }

    /// The number under `key` as float bits.
    pub open spec fn spec_float(self, key: Seq<char>) -> Option<u64> {
        match self.spec_member(key) {
            Some(Json::Number(n)) => n.float_bits,
            _ => None,
        }
    }

    /// The number under `key`, where it is an integer of 64 bits.
    pub open spec fn spec_integer(self, key: Seq<char>) -> Option<i64> {
        match self.spec_member(key) {
            Some(Json::Number(n)) => n.integer,
            _ => None,
        }
    }

    /// Whether this is an object.
    pub open spec fn spec_is_object(self) -> bool {
        self is Object
    }

    pub fn is_object(&self) -> (r: bool)
        ensures
            r == self.spec_is_object(),
    {
        match self {
            Json::Object(_) => true,
            _ => false,
        }
    }

    /// Looks a member up by name. Of several members with one name the
    /// first counts.
    pub fn member(&self, key: &str) -> (r: Option<&Json>)
        ensures
            match r {
                Some(found) => self.spec_member(key@) == Some(*found),
                None => self.spec_member(key@).is_none(),
            },
    {
        match self {
            Json::Object(members) => {
                let wanted = key.to_owned();
                let mut i: usize = 0;
                while i < members.len()
                    invariant
                        i <= members@.len(),
                        wanted@ == key@,
                        self.spec_member(key@) == find_member(members@, key@, 0),
                        find_member(members@, key@, 0) == find_member(members@, key@, i as int),
                    decreases members@.len() - i,
                {
                    if members[i].name == wanted {
                        assert(find_member(members@, key@, i as int) == Some(
                            members@[i as int].value,
                        ));
                        return Some(&members[i].value);
                    }
                    i += 1;
                }
                None
            },
            _ => None,
        }
    }

    pub fn text_field(&self, key: &str) -> (r: Option<String>)
        ensures
            r == self.spec_text(key@),
    {
        match self.member(key) {
            Some(Json::Text(s)) => Some(s.clone()),
            _ => None,
        }
    }

    pub fn optional_text_field(&self, key: &str) -> (r: Option<Option<String>>)
        ensures
            r == self.spec_optional_text(key@),
    {
        match self.member(key) {
            Some(Json::Text(s)) => Some(Some(s.clone())),
            Some(Json::Null) => Some(None),
            None => Some(None),
            _ => None,
        }
    }

    pub fn float_field(&self, key: &str) -> (r: Option<u64>)
        ensures
            r == self.spec_float(key@),
    {
        match self.member(key) {
            Some(Json::Number(n)) => n.float_bits,
            _ => None,
        }
    }

    pub fn integer_field(&self, key: &str) -> (r: Option<i64>)
        ensures
            r == self.spec_integer(key@),
    {
        match self.member(key) {
            Some(Json::Number(n)) => n.integer,
            _ => None,
        }
    }
}

} // verus!
