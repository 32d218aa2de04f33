//! The boundary to the JSON text codec.
//!
//! The `json` crate parses each incoming line and prints each outgoing
//! response; everything between — what the fields mean, how numbers are
//! classified, what a response looks like — is decided and verified in
//! this crate. The two results are named (`json_parse`, `json_text`): both
//! depend on their argument alone.

use vstd::prelude::*;
use crate::wire::JsonVal;

verus! {

/// The `json` crate's value type, carried only across this boundary.
#[verifier::external_type_specification]
#[verifier::external_body]
pub struct ExJsonValue(json::JsonValue);

/// What `json::parse` reads from a line: the parsed value, or the parser's
/// diagnostic text. A function of the text alone.
pub uninterp spec fn json_parse(s: Seq<char>) -> Result<JsonVal, Seq<char>>;

/// What `json::stringify` prints for a value: a function of the value alone.
pub uninterp spec fn json_text(v: JsonVal) -> Seq<char>;

/// Relies on the `json` crate's value enum and `Number::as_parts`: maps
/// each parsed node, one arm per variant, onto this crate's wire value.
#[verifier::external_body]
fn decode_tree(v: json::JsonValue) -> JsonVal {
    match v {
        json::JsonValue::Null => JsonVal::Null,
        json::JsonValue::Boolean(b) => JsonVal::Bool(b),
        json::JsonValue::Number(n) => { let (p, m, e) = n.as_parts(); JsonVal::Num(p, m, e) },
        json::JsonValue::Short(s) => JsonVal::Str(String::from(s.as_str())),
        json::JsonValue::String(s) => JsonVal::Str(s),
        json::JsonValue::Array(a) => JsonVal::Arr(a.into_iter().map(decode_tree).collect()),
        json::JsonValue::Object(o) => JsonVal::Obj(o.iter().map(|(k, x)| (String::from(k), decode_tree(x.clone()))).collect()),
    }
}

/// Relies on the `json` crate's value enum and `Number::from_parts`: maps
/// each wire value, one arm per variant, onto the crate's parsed form.
#[verifier::external_body]
fn encode_tree(v: &JsonVal) -> json::JsonValue {
    match v {
        JsonVal::Null => json::JsonValue::Null,
        JsonVal::Bool(b) => json::JsonValue::Boolean(*b),
        JsonVal::Num(p, m, e) => json::JsonValue::Number(json::number::Number::from_parts(*p, *m, *e)),
        JsonVal::Str(s) => json::JsonValue::String(s.clone()),
        JsonVal::Arr(items) => json::JsonValue::Array(items.iter().map(encode_tree).collect()),
        JsonVal::Obj(fields) => {
            let mut o = json::object::Object::new();
            for (k, x) in fields.iter() { o.insert(k.as_str(), encode_tree(x)); }
            json::JsonValue::Object(o)
        },
    }
}

/// Relies on `json::parse` for reading one line of text as one JSON value;
/// the error case carries the parser's diagnostic text.
#[verifier::external_body]
pub fn parse_request(line: &str) -> (r: Result<JsonVal, String>)
    ensures
        match r {
            Ok(v) => json_parse(line@) == Ok::<JsonVal, Seq<char>>(v),
            Err(t) => (json_parse(line@) matches Err(m) && m == t@),
        },
{
    match json::parse(line) {
        Ok(v) => Ok(decode_tree(v)),
        Err(e) => Err(format!("{}", e)),
    }
}

/// Relies on `json::stringify` for printing one JSON value as one line of
/// text (without the trailing newline).
#[verifier::external_body]
pub fn render_json(v: &JsonVal) -> (r: String)
    ensures
        r@ == json_text(*v),
{
    json::stringify(encode_tree(v))
}

} // verus!
