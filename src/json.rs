//! The calls into serde_json that the pipeline makes.
use vstd::prelude::*;

verus! {

#[verifier::external_type_specification]
#[verifier::external_body]
pub struct ExValue(serde_json::Value);

#[verifier::external_type_specification]
#[verifier::external_body]
pub struct ExError(serde_json::Error);

/// Whether serde_json accepts `b` as one JSON document (surrounding
/// whitespace allowed).
pub uninterp spec fn json_valid(b: Seq<u8>) -> bool;

/// The compact serialization of the value that serde_json parses from `b`.
pub uninterp spec fn compact_of(b: Seq<u8>) -> Seq<u8>;

/// The indented serialization of the value that serde_json parses from `b`.
pub uninterp spec fn pretty_of(b: Seq<u8>) -> Seq<u8>;

/// A parsed document together with the bytes it was parsed from. Only
/// `parse_value` builds one, so `source` is always those bytes.
pub struct Parsed {
    value: serde_json::Value,
    source: Ghost<Seq<u8>>,
}

impl Parsed {
    /// The bytes the value was parsed from.
    pub closed spec fn source(&self) -> Seq<u8> {
        self.source@
    }
}

/// Relies on serde_json::from_slice::<Value>: it succeeds exactly on the
/// bytes it accepts, and whether it does depends on the bytes alone.
#[verifier::external_body]
fn from_slice(b: &[u8]) -> (r: Result<serde_json::Value, serde_json::Error>)
    ensures
        r is Ok <==> json_valid(b@),
{
    serde_json::from_slice(b)
}

/// Parses `b` as one JSON document.
pub(crate) fn parse_value(b: &[u8]) -> (r: Result<Parsed, serde_json::Error>)
    ensures
        r is Ok <==> json_valid(b@),
        r is Ok ==> r->Ok_0.source() == b@,
{
    match from_slice(b) {
        Ok(value) => Ok(Parsed { value, source: Ghost(b@) }),
        Err(e) => Err(e),
    }
}

/// Relies on serde_json::to_vec: the value as compact JSON text. Writing a
/// `Value` into a `Vec` cannot fail (string keys only; a number is never
/// NaN or infinite), and the text depends on the value alone.
#[verifier::external_body]
pub(crate) fn encode_compact(p: &Parsed) -> (r: Result<Vec<u8>, serde_json::Error>)
    ensures
        r is Ok,
        r is Ok ==> r->Ok_0@ == compact_of(p.source()),
{
    serde_json::to_vec(&p.value)
}

/// Relies on serde_json::to_vec_pretty: the value as indented JSON text.
/// As with `encode_compact`, it cannot fail and depends on the value alone.
#[verifier::external_body]
pub(crate) fn encode_pretty(p: &Parsed) -> (r: Result<Vec<u8>, serde_json::Error>)
    ensures
        r is Ok,
        r is Ok ==> r->Ok_0@ == pretty_of(p.source()),
{
    serde_json::to_vec_pretty(&p.value)
}

/// Relies on the `Display` impl of serde_json::Error: its message.
#[verifier::external_body]
pub(crate) fn error_message(e: &serde_json::Error) -> (r: String) {
    e.to_string()
}

} // verus!
