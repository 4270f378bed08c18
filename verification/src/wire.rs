//! The trusted boundary to the JSON parser.
//!
//! Parsing the raw bytes of a document into a tree is delegated to
//! `serde_json`; everything after that point is verified code over the
//! library's own [`JsonData`](crate::json::JsonData) tree.  The items here
//! state, without proof, what that delegation returns.

use vstd::prelude::*;

use crate::json::JsonData;
use crate::json::JsonV;
use crate::json::NumData;

verus! {

#[verifier::external_type_specification]
#[verifier::external_body]
/// Declares `serde_json`'s value type so that it can appear in signatures.
pub struct ExValue(serde_json::Value);

/// The JSON tree that a `serde_json::Value` holds, in the library's terms.
pub uninterp spec fn json_view(v: serde_json::Value) -> JsonV;

/// What parsing a byte sequence as one JSON document yields: its tree, or
/// `None` when the bytes are not a well-formed document.
pub uninterp spec fn parsed_doc(bytes: Seq<u8>) -> Option<JsonV>;

/// Whether the parser classifies a failure on these bytes as a syntax or
/// premature-end fault (as opposed to a malformed number or similar).
pub uninterp spec fn parse_fault_syntax(bytes: Seq<u8>) -> bool;

/// A failed parse: how the parser classified it, and its report.
pub struct ParseFault {
    /// True for a syntax or premature-end fault.
    pub syntax: bool,
    /// The parser's account of the fault.
    pub detail: String,
}

/// Relies on `serde_json::from_slice::<Value>`: the parsed document is a
/// function of the bytes alone, and a failure's classification
/// (`Error::is_syntax` / `Error::is_eof`) likewise.
#[verifier::external_body]
pub fn parse_value(bytes: &[u8]) -> (r: Result<serde_json::Value, ParseFault>)
    ensures
        r matches Ok(v) ==> parsed_doc(bytes@) == Some(json_view(v)),
        r matches Err(f) ==> parsed_doc(bytes@) is None && f.syntax == parse_fault_syntax(
            bytes@,
        ),
{
    serde_json::from_slice(bytes).map_err(
        |e: serde_json::Error| ParseFault {
            syntax: e.is_syntax() || e.is_eof(),
            detail: e.to_string(),
        },
    )
}

/// Relies on the public shape of the `serde_json::Value` enum and on
/// `Number::as_u64` / `Number::as_f64` / `num_traits::ToPrimitive::to_f32`:
/// each node is moved across into the library's own tree, one for one.
#[verifier::external_body]
pub fn to_tree(v: serde_json::Value) -> (r: JsonData)
    ensures
        r@ == json_view(v),
{
    match v {
        serde_json::Value::Null => JsonData::Null,
        serde_json::Value::Bool(b) => JsonData::Bool(b),
        serde_json::Value::Number(n) => JsonData::Num(NumData {
            int: n.as_u64(),
            bits: n.as_f64().and_then(|x| num_traits::ToPrimitive::to_f32(&x)).map(
                |y| y.to_bits(),
            ),
        }),
        serde_json::Value::String(s) => JsonData::Str(s.into_bytes()),
        serde_json::Value::Array(a) => JsonData::Arr(a.into_iter().map(to_tree).collect()),
        serde_json::Value::Object(o) => JsonData::Obj(
            o.into_iter().map(|(k, w)| (k, to_tree(w))).collect(),
        ),
    }
}

} // verus!
