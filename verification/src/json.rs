use vstd::prelude::*;

verus! {

// The token issuer's envelope and the bearer token's claim payload are JSON
// documents; they are read through serde_json. A parsed document is carried
// as an opaque `serde_json::Value`, and the contracts speak of it through the
// names below: `json_text_fields` gives the top-level string-valued fields of
// a parsed document, and `json_text_fields_of` gives the same map directly
// from the document's bytes, so that what a later lookup returns is fixed by
// the bytes that were parsed.

#[verifier::external_type_specification]
#[verifier::external_body]
pub struct ExValue(serde_json::Value);

/// Whether serde_json accepts these bytes as one JSON document.
pub uninterp spec fn json_parse_ok(bytes: Seq<u8>) -> bool;

/// The top-level string-valued fields of a parsed document: for a JSON object,
/// each key whose value is a JSON string, mapped to that string's characters.
pub uninterp spec fn json_text_fields(v: serde_json::Value) -> Map<Seq<char>, Seq<char>>;

/// The same field map, as a function of the document's bytes alone.
pub uninterp spec fn json_text_fields_of(bytes: Seq<u8>) -> Map<Seq<char>, Seq<char>>;

/// Relies on serde_json::from_slice::<Value>: whether the bytes parse, and what
/// the parsed document holds, are functions of the input bytes alone.
#[verifier::external_body]
pub fn parse_json(bytes: &[u8]) -> (r: Option<serde_json::Value>)
    ensures
        r is Some <==> json_parse_ok(bytes@),
        r is Some ==> json_text_fields(r.unwrap()) == json_text_fields_of(bytes@),
{
    serde_json::from_slice::<serde_json::Value>(bytes).ok()
}

/// Relies on serde_json::Value::get and serde_json::Value::as_str: `get` looks
/// a key up in a JSON object (None for any other document), and `as_str` hands
/// the found value out when it is a JSON string.
#[verifier::external_body]
pub fn text_field(v: &serde_json::Value, key: &str) -> (r: Option<String>)
    ensures
        r is Some <==> json_text_fields(*v).dom().contains(key@),
        r is Some ==> r.unwrap()@ == json_text_fields(*v)[key@],
{
    v.get(key).and_then(|f| f.as_str()).map(|s| s.to_owned())
}

} // verus!
