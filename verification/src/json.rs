//! JSON documents as plain data, and the parser that produces them.

use vstd::prelude::*;
use crate::error::SerdeError;
use crate::text::chars_of;

verus! {

/// A JSON number. Integers keep their value; a number written with a
/// fraction or an exponent is only known to be one.
#[derive(Clone, Copy, Debug, PartialEq, Eq, Structural)]
pub enum JsonNumber {
    /// A non-negative integer.
    PosInt(u64),
    /// A negative integer.
    NegInt(i64),
    /// A number that is not an integer of at most 64 bits.
    Float,
}

/// A JSON document held by the program.
#[derive(Debug)]
pub enum Json {
    Null,
    Bool(bool),
    Number(JsonNumber),
    String(String),
    Array(Vec<Json>),
    /// The members of an object, each key once.
    Object(Vec<(String, Json)>),
}

/// The mathematical value of a [`Json`] document.
pub ghost enum JsonValue {
    Null,
    Bool(bool),
    Number(JsonNumber),
    String(Seq<char>),
    Array(Seq<JsonValue>),
    Object(Seq<(Seq<char>, JsonValue)>),
}

/// The value that `doc` holds.
pub open spec fn json_value(doc: Json) -> JsonValue
    decreases doc,
{
    match doc {
        Json::Null => JsonValue::Null,
        Json::Bool(b) => JsonValue::Bool(b),
        Json::Number(n) => JsonValue::Number(n),
        Json::String(s) => JsonValue::String(s@),
        Json::Array(items) => JsonValue::Array(
            Seq::new(
                items@.len(),
                |i: int|
                    if 0 <= i < items@.len() {
                        json_value(items@[i])
                    } else {
                        JsonValue::Null
                    },
            ),
        ),
        Json::Object(fields) => JsonValue::Object(
            Seq::new(
                fields@.len(),
                |i: int|
                    if 0 <= i < fields@.len() {
                        (fields@[i].0@, json_value(fields@[i].1))
                    } else {
                        (Seq::empty(), JsonValue::Null)
                    },
            ),
        ),
    }
}

impl View for Json {
    type V = JsonValue;

    open spec fn view(&self) -> JsonValue {
        json_value(*self)
    }
}

/// The first value stored under `key` among `members`.
pub open spec fn lookup(members: Seq<(Seq<char>, JsonValue)>, key: Seq<char>) -> Option<JsonValue>
    decreases members.len(),
{
    if members.len() == 0 {
        None
    } else if members[0].0 == key {
        Some(members[0].1)
    } else {
        lookup(members.drop_first(), key)
    }
}

impl JsonValue {
    /// The member `key` of an object; `None` for any other value and for an
    /// object without that key.
    pub open spec fn member(self, key: Seq<char>) -> Option<JsonValue> {
        match self {
            JsonValue::Object(members) => lookup(members, key),
            _ => None,
        }
    }

    /// The text of a string value.
    pub open spec fn text(self) -> Option<Seq<char>> {
        match self {
            JsonValue::String(s) => Some(s),
            _ => None,
        }
    }

    /// The value as a signed 64-bit integer, where it is an integer in range.
    pub open spec fn int64(self) -> Option<i64> {
        match self {
            JsonValue::Number(JsonNumber::PosInt(n)) => if n <= i64::MAX {
                Some(n as i64)
            } else {
                None
            },
            JsonValue::Number(JsonNumber::NegInt(n)) => Some(n),
            _ => None,
        }
    }

    /// The value as a signed 32-bit integer, where it is an integer in range.
    pub open spec fn int32(self) -> Option<i32> {
        match self.int64() {
            Some(n) => if i32::MIN <= n <= i32::MAX {
                Some(n as i32)
            } else {
                None
            },
            None => None,
        }
    }

    /// The elements of an array value.
    pub open spec fn elements(self) -> Option<Seq<JsonValue>> {
        match self {
            JsonValue::Array(items) => Some(items),
            _ => None,
        }
    }
}

/// What the JSON parser makes of `text`: the document it reads, or `None`
/// where it rejects the text.
pub uninterp spec fn json_parse(text: Seq<char>) -> Option<JsonValue>;

/// `serde_json::Value`, the document as the parser hands it out. Nothing is
/// known of what it holds.
#[verifier::external_type_specification]
#[verifier::external_body]
pub struct ExSerdeValue(serde_json::Value);

/// Copies a `serde_json::Value` into a [`Json`], variant by variant. A number
/// becomes `PosInt` where `Number::as_u64` gives one, else `NegInt` where
/// `Number::as_i64` gives one, else `Float`.
#[verifier::external_body]
fn json_from_serde(value: serde_json::Value) -> Json {
    match value {
        serde_json::Value::Null => Json::Null,
        serde_json::Value::Bool(b) => Json::Bool(b),
        serde_json::Value::Number(n) => Json::Number(match (n.as_u64(), n.as_i64()) {
            (Some(u), _) => JsonNumber::PosInt(u),
            (None, Some(i)) => JsonNumber::NegInt(i),
            (None, None) => JsonNumber::Float,
        }),
        serde_json::Value::String(s) => Json::String(s),
        serde_json::Value::Array(a) => Json::Array(a.into_iter().map(json_from_serde).collect()),
        serde_json::Value::Object(m) => Json::Object(
            m.into_iter().map(|(k, v)| (k, json_from_serde(v))).collect(),
        ),
    }
}

/// `serde_json::Error`, the parser's account of why it refused a text.
/// Nothing is known of what it holds.
#[verifier::external_type_specification]
#[verifier::external_body]
pub struct ExSerdeJsonError(serde_json::Error);

/// Runs `serde_json::from_str` on `text`, reading a `serde_json::Value`. The
/// result is named, not described: the document is [`json_parse`] of the
/// text, and the parser fails exactly where that is `None`.
#[verifier::external_body]
fn parse_chars(text: &Vec<char>) -> (r: Result<Json, serde_json::Error>)
    ensures
        match r {
            Ok(doc) => json_parse(text@) == Some(doc@),
            Err(_) => json_parse(text@) is None,
        },
{
    let source: String = text.iter().collect();
    serde_json::from_str::<serde_json::Value>(&source).map(json_from_serde)
}

/// The words of a parser error, by its `to_string`. Nothing is known of
/// them.
#[verifier::external_body]
pub(crate) fn parser_message(err: &serde_json::Error) -> String {
    err.to_string()
}

impl Json {
    /// Parses a JSON document.
    pub fn parse(text: &Vec<char>) -> (r: Option<Json>)
        ensures
            match r {
                Some(doc) => json_parse(text@) == Some(doc@),
                None => json_parse(text@) is None,
            },
    {
        match parse_chars(text) {
            Ok(doc) => Some(doc),
            Err(_) => None,
        }
    }

    /// Parses a JSON document, and says in the parser's words why a text is
    /// none.
    pub fn parse_or_explain(text: &Vec<char>) -> (r: Result<Json, SerdeError>)
        ensures
            match r {
                Ok(doc) => json_parse(text@) == Some(doc@),
                Err(_) => json_parse(text@) is None,
            },
    {
        match parse_chars(text) {
            Ok(doc) => Ok(doc),
            Err(e) => Err(SerdeError::from(e)),
        }
    }

    /// Parses a JSON document out of a string.
    pub fn parse_str(text: &str) -> (r: Option<Json>)
        ensures
            match r {
                Some(doc) => json_parse(text@) == Some(doc@),
                None => json_parse(text@) is None,
            },
    {
        let chars = chars_of(text);
        Json::parse(&chars)
    }

    /// The member `key` of an object.
    pub fn get(&self, key: &str) -> (r: Option<&Json>)
        ensures
            match r {
                Some(found) => self@.member(key@) == Some(found@),
                None => self@.member(key@) is None,
            },
    {
        match self {
            Json::Object(fields) => {
                let wanted = key.to_owned();
                let ghost members = self@->Object_0;
                let mut i: usize = 0;
                assert(members.skip(0) =~= members);
                while i < fields.len()
                    invariant
                        i <= fields.len(),
                        wanted@ == key@,
                        self@.member(key@) == lookup(members, key@),
                        members.len() == fields@.len(),
                        forall|j: int|
                            0 <= j < fields@.len() ==> members[j] == (
                                #[trigger] fields@[j].0@,
                                fields@[j].1@,
                            ),
                        lookup(members, key@) == lookup(members.skip(i as int), key@),
                    decreases fields.len() - i,
                {
                    assert(members.skip(i as int).drop_first() =~= members.skip(i + 1));
                    assert(members.skip(i as int)[0] == (fields@[i as int].0@, fields@[i as int].1@));
                    if fields[i].0 == wanted {
                        return Some(&fields[i].1);
                    }
                    i += 1;
                }
                None
            },
            _ => None,
        }
    }

    /// The text of a string value.
    pub fn as_str(&self) -> (r: Option<&String>)
        ensures
            match r {
                Some(s) => self@.text() == Some(s@),
                None => self@.text() is None,
            },
    {
        match self {
            Json::String(s) => Some(s),
            _ => None,
        }
    }

    /// The value as a signed 64-bit integer.
    pub fn as_i64(&self) -> (r: Option<i64>)
        ensures
            r == self@.int64(),
    {
        match self {
            Json::Number(JsonNumber::PosInt(n)) => if *n <= 0x7fff_ffff_ffff_ffff {
                Some(*n as i64)
            } else {
                None
            },
            Json::Number(JsonNumber::NegInt(n)) => Some(*n),
            _ => None,
        }
    }

    /// The value as a signed 32-bit integer.
    pub fn as_i32(&self) -> (r: Option<i32>)
        ensures
            r == self@.int32(),
    {
        match self.as_i64() {
            Some(n) => if -0x8000_0000 <= n && n <= 0x7fff_ffff {
                Some(n as i32)
            } else {
                None
            },
            None => None,
        }
    }

    /// The elements of an array value.
    pub fn as_array(&self) -> (r: Option<&Vec<Json>>)
        ensures
            match r {
                Some(items) => self@.elements() == Some(Seq::new(items@.len(), |i: int| items@[i]@)),
                None => self@.elements() is None,
            },
    {
        match self {
            Json::Array(items) => {
                assert(self@->Array_0 =~= Seq::new(items@.len(), |i: int| items@[i]@));
                Some(items)
            },
            _ => None,
        }
    }

    /// Whether the value is an object.
    pub fn is_object(&self) -> (r: bool)
        ensures
            r == (self@ is Object),
    {
        match self {
            Json::Object(_) => true,
            _ => false,
        }
    }

    /// Whether the value is `null`.
    pub fn is_null(&self) -> (r: bool)
        ensures
            r == (self@ == JsonValue::Null),
    {
        match self {
            Json::Null => true,
            _ => false,
        }
    }
}

} // verus!
