//! The boundary to the JSON serializer and parser.
//!
//! The codec treats a JSON value as opaque: everything it needs from the
//! text representation is captured by two names, `json_text_of` for the
//! canonical serialization of a value and `json_parse` for what parsing a
//! byte sequence yields. The two functions below are the only places where
//! serde_json runs; their contracts are trusted.

use vstd::prelude::*;

verus! {

#[verifier::external_type_specification]
#[verifier::external_body]
pub struct ExJsonValue(serde_json::Value);

#[verifier::external_type_specification]
#[verifier::external_body]
pub struct ExJsonError(serde_json::Error);

// The canonical JSON text of a value, as UTF-8 bytes. serde_json keeps
// object members in key order (its map is a B-tree), so the text is a
// function of the value alone.
pub uninterp spec fn json_text_of(v: serde_json::Value) -> Seq<u8>;

// What parsing a byte sequence as JSON text yields: `Some(v)` when the bytes
// are accepted as the value `v`, `None` when they are rejected. Parsing is
// deterministic, so the outcome is a function of the bytes alone.
pub uninterp spec fn json_parse(bytes: Seq<u8>) -> Option<serde_json::Value>;

/// Relies on serde_json::to_vec: it writes the canonical text of the value.
/// It cannot fail on a `Value`: serializing a `Value` only errors when the
/// writer does, and writing into a `Vec` is infallible. Reparsing the
/// canonical text never yields a different value — for floating-point
/// numbers this holds because the `float_roundtrip` feature is enabled,
/// which serde_json documents as making a written f64 reparse to an
/// identical f64; without it the parser's best-effort float path can
/// double-round. Reparsing may still fail, since the parser enforces a
/// recursion depth limit that the serializer does not.
#[verifier::external_body]
pub(crate) fn json_to_vec(v: &serde_json::Value) -> (r: Vec<u8>)
    ensures
        r@ == json_text_of(*v),
        (json_parse(r@) matches Some(w) ==> w == *v),
{
    serde_json::to_vec(v).unwrap()
}

/// Relies on serde_json::from_slice: it parses the bytes as JSON text and
/// returns the parsed value, or a diagnostic when the bytes are rejected.
#[verifier::external_body]
pub(crate) fn json_from_slice(bytes: &[u8]) -> (r: Result<
    serde_json::Value,
    serde_json::Error,
>)
    ensures
        (match r {
            Ok(v) => json_parse(bytes@) == Some(v),
            Err(_) => json_parse(bytes@) is None,
        }),
{
    serde_json::from_slice(bytes)
}

} // verus!
