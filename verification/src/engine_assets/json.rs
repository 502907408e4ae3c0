//! The JSON document model the glTF importer reads: objects, arrays, strings
//! and numbers, as the JSON parser produced them.

use vstd::prelude::*;
use vstd::string::{StringExecFns, StringSliceAdditionalSpecFns};
use vstd::utf8::*;

use super::types::AssetError;

verus! {

/// A JSON number: its value as an unsigned integer, when it is one that fits
/// in 64 bits, and the bits of its value as a double.
#[derive(Debug, Clone, Copy, PartialEq, Eq)]
pub struct JsonNumber {
    pub as_u64: Option<u64>,
    pub f64_bits: u64,
}

/// One `"key": value` member of a JSON object.
#[derive(Debug)]
pub struct JsonMember {
    pub key: String,
    pub value: JsonValue,
}

/// A JSON value.
#[derive(Debug)]
pub enum JsonValue {
    Null,
    Bool(bool),
    Number(JsonNumber),
    String(String),
    Array(Vec<JsonValue>),
    Object(Vec<JsonMember>),
}

/// The value of the first member named `key`.
pub open spec fn member_value(members: Seq<JsonMember>, key: Seq<char>) -> Option<JsonValue>
    decreases members.len(),
{
    if members.len() == 0 {
        None
    } else if members[0].key@ == key {
        Some(members[0].value)
    } else {
        member_value(members.drop_first(), key)
    }
}

/// The member `key` of an object; nothing for other values.
pub open spec fn json_get(v: JsonValue, key: Seq<char>) -> Option<JsonValue> {
    match v {
        JsonValue::Object(members) => member_value(members@, key),
        _ => None,
    }
}

/// A value's unsigned integer, if it is a number that is one.
pub open spec fn json_u64(v: Option<JsonValue>) -> Option<u64> {
    match v {
        Some(JsonValue::Number(n)) => n.as_u64,
        _ => None,
    }
}

/// A value's text, if it is a string.
pub open spec fn json_str(v: Option<JsonValue>) -> Option<Seq<char>> {
    match v {
        Some(JsonValue::String(s)) => Some(s@),
        _ => None,
    }
}

/// A value's items, if it is an array.
pub open spec fn json_array(v: Option<JsonValue>) -> Option<Seq<JsonValue>> {
    match v {
        Some(JsonValue::Array(items)) => Some(items@),
        _ => None,
    }
}

/// Whether two texts are equal, compared by their UTF-8 bytes.
pub fn str_eq(a: &str, b: &str) -> (equal: bool)
    ensures
        equal == (a@ == b@),
{
    let x = a.as_bytes();
    let y = b.as_bytes();
    proof {
        encode_utf8_decode_utf8(a@);
        encode_utf8_decode_utf8(b@);
    }
    if x.len() != y.len() {
        proof {
            if a@ == b@ {
                assert(x@ == a.spec_bytes());
                assert(y@ == b.spec_bytes());
            }
        }
        return false;
    }
    let mut i: usize = 0;
    while i < x.len()
        invariant
            x@.len() == y@.len(),
            x@ == a.spec_bytes(),
            y@ == b.spec_bytes(),
            i <= x@.len(),
            forall|k: int| 0 <= k < i ==> x@[k] == y@[k],
        decreases x@.len() - i,
    {
        if x[i] != y[i] {
            proof {
                if a@ == b@ {
                    assert(x@ == a.spec_bytes());
                    assert(y@ == b.spec_bytes());
                }
            }
            return false;
        }
        i = i + 1;
    }
    assert(x@ == y@);
    true
}

impl JsonValue {
    /// The member `key` of an object.
    pub fn get(&self, key: &str) -> (found: Option<&JsonValue>)
        ensures
            match found {
                Some(v) => json_get(*self, key@) == Some(*v),
                None => json_get(*self, key@) is None,
            },
    {
        match self {
            JsonValue::Object(members) => {
                let mut i: usize = 0;
                proof {
                    assert(members@.skip(0) == members@);
                }
                while i < members.len()
                    invariant
                        i <= members@.len(),
                        json_get(*self, key@) == member_value(members@, key@),
                        member_value(members@, key@) == member_value(members@.skip(i as int), key@),
                    decreases members@.len() - i,
                {
                    proof {
                        assert(members@.skip(i as int).drop_first() == members@.skip(i + 1));
                    }
                    if str_eq(members[i].key.as_str(), key) {
                        proof {
                            assert(members@.skip(i as int)[0] == members@[i as int]);
                        }
                        return Some(&members[i].value);
                    }
                    proof {
                        assert(members@.skip(i as int)[0] == members@[i as int]);
                    }
                    i = i + 1;
                }
                None
            },
            _ => None,
        }
    }

    /// The unsigned integer of a number that is one.
    pub fn as_u64(&self) -> (n: Option<u64>)
        ensures
            n == json_u64(Some(*self)),
    {
        match self {
            JsonValue::Number(n) => n.as_u64,
            _ => None,
        }
    }

    /// The text of a string.
    pub fn as_str(&self) -> (s: Option<&str>)
        ensures
            match s {
                Some(t) => json_str(Some(*self)) == Some(t@),
                None => json_str(Some(*self)) is None,
            },
    {
        match self {
            JsonValue::String(s) => Some(s.as_str()),
            _ => None,
        }
    }

    /// The items of an array.
    pub fn as_array(&self) -> (items: Option<&Vec<JsonValue>>)
        ensures
            match items {
                Some(v) => json_array(Some(*self)) == Some(v@),
                None => json_array(Some(*self)) is None,
            },
    {
        match self {
            JsonValue::Array(items) => Some(items),
            _ => None,
        }
    }
}

#[verifier::external_type_specification]
#[verifier::external_body]
pub struct ExParsedJson(serde_json::Value);

/// The document that `serde_json` parses from a JSON text, in this library's
/// model (numbers as their `u64` value, when they have one, and the bits of
/// their `f64` value); none when the text is not JSON. Stated by the parser,
/// not here.
pub uninterp spec fn json_text_value(text: Seq<char>) -> Option<JsonValue>;

/// Turns a value `serde_json` parsed into this library's model, one node for
/// one node. It is only run inside `parse_json_text`, whose contract names
/// its result.
#[verifier::external_body]
fn library_json(value: &serde_json::Value) -> JsonValue {
    match value {
        serde_json::Value::Null => JsonValue::Null,
        serde_json::Value::Bool(b) => JsonValue::Bool(*b),
        serde_json::Value::Number(n) => JsonValue::Number(
            JsonNumber { as_u64: n.as_u64(), f64_bits: n.as_f64().map(|x| x.to_bits()).unwrap_or(0) },
        ),
        serde_json::Value::String(s) => JsonValue::String(s.clone()),
        serde_json::Value::Array(items) => JsonValue::Array(items.iter().map(library_json).collect()),
        serde_json::Value::Object(members) => JsonValue::Object(
            members.iter().map(|(k, v)| JsonMember { key: k.clone(), value: library_json(v) }).collect(),
        ),
    }
}

/// Parses JSON text with `serde_json::from_str` into a `serde_json::Value`
/// and hands it back in this library's model; on failure, the parser's
/// message. The document is named, not stated: an error comes exactly when
/// the parser finds the text is not JSON.
#[verifier::external_body]
fn parse_json_text(text: &str) -> (result: Result<JsonValue, String>)
    ensures
        match result {
            Ok(value) => json_text_value(text@) == Some(value),
            Err(_) => json_text_value(text@) is None,
        },
{
    match serde_json::from_str::<serde_json::Value>(text) {
        Ok(value) => Ok(library_json(&value)),
        Err(error) => Err(error.to_string()),
    }
}

/// Parses the JSON text of a glTF document.
pub fn parse_gltf_document(text: &str) -> (result: Result<JsonValue, AssetError>)
    ensures
        match json_text_value(text@) {
            Some(document) => result matches Ok(d) && d == document,
            None => result matches Err(AssetError::GltfJson(_)),
        },
{
    match parse_json_text(text) {
        Ok(document) => Ok(document),
        Err(message) => Err(AssetError::GltfJson(message)),
    }
}

} // verus!
