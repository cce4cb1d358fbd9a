//! JSON documents as plain values, and the trusted boundary to the
//! serde_json parser.
//!
//! The library's logic never reads `serde_json::Value` directly: the two
//! trusted functions below turn a byte sequence into a [`JsonValue`], and
//! everything after that point is verified.

use vstd::prelude::*;

use crate::text::str_eq;

verus! {

/// A JSON document held as plain values.
///
/// `Num` carries the text that the default float-to-text conversion gives
/// for the number's value; `Obj` keeps the fields in the order in which the
/// parser hands them out.
pub enum JsonValue {
    Null,
    Bool(bool),
    Num(String),
    Str(String),
    Arr(Vec<JsonValue>),
    Obj(Vec<(String, JsonValue)>),
}

/// Declares `serde_json::Value`, the parser's document type, which the two
/// trusted functions below pass between themselves.  It stays opaque: the
/// library reads documents only as [`JsonValue`].
#[verifier::external_type_specification]
#[verifier::external_body]
pub struct ExValue(serde_json::Value);

/// What parsing a byte sequence as JSON yields: the document as a
/// [`JsonValue`], or the parser's error message.  serde_json's parsing and
/// its error rendering depend on the input bytes alone.
pub uninterp spec fn spec_parse_json(bytes: Seq<u8>) -> Result<JsonValue, Seq<char>>;

/// The [`JsonValue`] that mirrors a parsed document.  The conversion reads
/// the document alone.
pub uninterp spec fn spec_json_of(v: serde_json::Value) -> JsonValue;

/// Relies on `serde_json::from_slice::<serde_json::Value>`: it parses the
/// bytes as a JSON document, deterministically, and its error's rendering
/// reports the structural reason.  The `Ok` document is tied to
/// `spec_parse_json` through `spec_json_of`, which `json_of` below returns.
#[verifier::external_body]
fn parse_value(bytes: &[u8]) -> (r: Result<serde_json::Value, String>)
    ensures
        r is Ok <==> spec_parse_json(bytes@) is Ok,
        r is Ok ==> spec_json_of(r->Ok_0) == spec_parse_json(bytes@)->Ok_0,
        r is Err ==> r->Err_0@ == spec_parse_json(bytes@)->Err_0,
{
    match serde_json::from_slice::<serde_json::Value>(bytes) {
        Ok(v) => Ok(v),
        Err(e) => Err(format!("{}", e)),
    }
}

/// Relies on `serde_json::Value`: each variant carries the parsed value.  A
/// number is rendered with the default float-to-text conversion; object
/// entries come out in the map's iteration order.  The result is a function
/// of the document alone.
#[verifier::external_body]
fn json_of(v: &serde_json::Value) -> (r: JsonValue)
    ensures
        r == spec_json_of(*v),
{
    match v {
        serde_json::Value::Null => JsonValue::Null,
        serde_json::Value::Bool(b) => JsonValue::Bool(*b),
        serde_json::Value::Number(n) => JsonValue::Num(match n.as_f64() {
            Some(x) => format!("{}", x),
            None => format!("{}", n),
        }),
        serde_json::Value::String(s) => JsonValue::Str(s.clone()),
        serde_json::Value::Array(a) => JsonValue::Arr(a.iter().map(json_of).collect()),
        serde_json::Value::Object(m) => JsonValue::Obj(
            m.iter().map(|(k, x)| (k.clone(), json_of(x))).collect(),
        ),
    }
}

/// Parses a byte sequence as a JSON document, or reports the parser's
/// error message.
pub fn parse_json(bytes: &[u8]) -> (r: Result<JsonValue, String>)
    ensures
        r is Ok <==> spec_parse_json(bytes@) is Ok,
        r is Ok ==> r->Ok_0 == spec_parse_json(bytes@)->Ok_0,
        r is Err ==> r->Err_0@ == spec_parse_json(bytes@)->Err_0,
{
    match parse_value(bytes) {
        Ok(v) => Ok(json_of(&v)),
        Err(e) => Err(e),
    }
}

/// The value of the first field named `key`, when the object holds one.
pub open spec fn spec_obj_get(entries: Seq<(String, JsonValue)>, key: Seq<char>) -> Option<
    JsonValue,
>
    decreases entries.len(),
{
    if entries.len() == 0 {
        None
    } else if entries[0].0@ == key {
        Some(entries[0].1)
    } else {
        spec_obj_get(entries.drop_first(), key)
    }
}

/// Looks a field up by name among an object's entries.
pub fn obj_get<'a>(entries: &'a Vec<(String, JsonValue)>, key: &str) -> (r: Option<&'a JsonValue>)
    ensures
        match r {
            Some(v) => spec_obj_get(entries@, key@) == Some(*v),
            None => spec_obj_get(entries@, key@) is None,
        },
{
    let n = entries.len();
    let mut i: usize = 0;
    proof {
        assert(entries@.skip(0) =~= entries@);
    }
    while i < n
        invariant
            n == entries@.len(),
            i <= n,
            spec_obj_get(entries@, key@) == spec_obj_get(entries@.skip(i as int), key@),
        decreases n - i,
    {
        proof {
            assert(entries@.skip(i as int)[0] == entries@[i as int]);
            assert(entries@.skip(i as int).drop_first() =~= entries@.skip(i as int + 1));
        }
        if str_eq(entries[i].0.as_str(), key) {
            return Some(&entries[i].1);
        }
        i = i + 1;
    }
    None
}

} // verus!
