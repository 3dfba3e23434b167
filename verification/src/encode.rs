//! Trusted boundary to the serialization collaborators: form-urlencoding,
//! JSON, and UTF-8 decoding of response header values.
//!
//! Each wrapper makes exactly one outside call; the contracts state what the
//! call's own source and documentation show, over plain values.

use serde_json::Error as JsonError;
use serde_urlencoded::ser::Error as FormError;
use vstd::prelude::*;

verus! {

#[verifier::external_type_specification]
#[verifier::external_body]
pub struct ExJsonValue(serde_json::Value);

#[verifier::external_type_specification]
#[verifier::external_body]
pub struct ExJsonError(JsonError);

#[verifier::external_type_specification]
#[verifier::external_body]
pub struct ExFormError(FormError);

#[verifier::external_type_specification]
#[verifier::external_body]
pub struct ExFromUtf8Error(std::string::FromUtf8Error);

/// A pair list as the encoding contracts see it.
pub open spec fn pairs_view(ps: Seq<(&str, &str)>) -> Seq<(Seq<char>, Seq<char>)> {
    ps.map_values(|p: (&str, &str)| (p.0@, p.1@))
}

/// The `application/x-www-form-urlencoded` rendering of a pair list: keys
/// and values percent-encoded, joined as `k=v` with `&` between pairs. The
/// rendering depends on the pairs alone.
pub uninterp spec fn form_encoded(pairs: Seq<(Seq<char>, Seq<char>)>) -> Seq<char>;

/// Relies on serde_urlencoded::to_string: a pair list is rendered in order
/// as its form-urlencoding, and on a list of string pairs it always
/// succeeds — its serializer has error paths only for other shapes of
/// input.
#[verifier::external_body]
pub(crate) fn form_urlencode(pairs: &[(&str, &str)]) -> (r: Result<String, FormError>)
    ensures
        r is Ok,
        r matches Ok(s) ==> s@ == form_encoded(pairs_view(pairs@)),
{
    serde_urlencoded::to_string(pairs)
}

/// Whether a byte sequence is a well-formed JSON document, as the JSON
/// parser accepts it; parsing depends on the bytes alone.
pub uninterp spec fn json_parses(bytes: Seq<u8>) -> bool;

/// Relies on serde_json::from_slice: reading a self-describing JSON value
/// succeeds exactly on well-formed JSON input.
#[verifier::external_body]
pub(crate) fn json_from_slice(bytes: &Vec<u8>) -> (r: Result<serde_json::Value, JsonError>)
    ensures
        r is Ok <==> json_parses(bytes@),
{
    serde_json::from_slice(bytes)
}

/// The JSON text of a self-describing value, in UTF-8 bytes: the
/// rendering depends on the value alone (string map keys in a fixed
/// order, finite numbers).
pub uninterp spec fn json_bytes_of(v: serde_json::Value) -> Seq<u8>;

/// Relies on serde_json::to_vec: the value is rendered as its JSON text
/// in UTF-8 bytes, and rendering a self-describing value always succeeds
/// — it writes into a byte buffer, which cannot fail, and such a value
/// holds only string map keys.
#[verifier::external_body]
pub(crate) fn json_to_vec(value: &serde_json::Value) -> (r: Result<Vec<u8>, JsonError>)
    ensures
        r is Ok,
        r matches Ok(b) ==> b@ == json_bytes_of(*value),
{
    serde_json::to_vec(value)
}

/// Relies on String::from_utf8: it succeeds exactly on valid UTF-8 input
/// and decodes the bytes it was given.
#[verifier::external_body]
pub(crate) fn utf8_to_string(bytes: &Vec<u8>) -> (r: Result<String, std::string::FromUtf8Error>)
    ensures
        r is Ok <==> vstd::utf8::valid_utf8(bytes@),
        r matches Ok(s) ==> s@ == vstd::utf8::decode_utf8(bytes@),
{
    String::from_utf8(bytes.clone())
}

} // verus!
