//! Decoding of the values that the registry's key-value store hands out.

use base64::Engine;
use vstd::prelude::*;
use vstd::utf8::{decode_utf8, encode_utf8, valid_utf8};

verus! {

/// The error of the `base64` crate's decoders. Nothing is known of its
/// contents here; it is only carried through.
#[verifier::external_type_specification]
#[verifier::external_body]
pub struct ExDecodeError(base64::DecodeError);

/// The bytes that `base64::engine::general_purpose::STANDARD.decode` yields
/// for `encoded`, or `None` where it reports an error.
pub uninterp spec fn base64_standard_decode(encoded: Seq<u8>) -> Option<Seq<u8>>;

/// Calls `Engine::decode` of the `base64` crate on its `STANDARD` engine
/// (the standard alphabet, with canonical padding required). The call's
/// outcome depends on the input alone; the contract gives it the name
/// [`base64_standard_decode`] and claims nothing more.
#[verifier::external_body]
fn decode_standard(encoded: &[u8]) -> (decoded: Result<Vec<u8>, base64::DecodeError>)
    ensures
        match decoded {
            Ok(bytes) => base64_standard_decode(encoded@) == Some(bytes@),
            Err(_) => base64_standard_decode(encoded@) is None,
        },
{
    base64::engine::general_purpose::STANDARD.decode(encoded)
}

/// Calls `String::from_utf8` and drops the error's detail. The contract
/// claims that the call succeeds exactly on well-formed UTF-8 and then yields
/// the text that the bytes encode.
#[verifier::external_body]
fn string_from_utf8(bytes: Vec<u8>) -> (text: Option<String>)
    ensures
        match text {
            Some(t) => valid_utf8(bytes@) && t@ == decode_utf8(bytes@),
            None => !valid_utf8(bytes@),
        },
{
    String::from_utf8(bytes).ok()
}

/// Why a stored value could not be read.
#[derive(Clone, Copy, Debug, PartialEq, Eq, Structural)]
pub enum ValueError {
    /// The value is not valid base64.
    NotBase64,
    /// The value is base64, but what it encodes is not UTF-8 text.
    NotUtf8,
}

/// The text that decoded bytes stand for; `decoded` is `None` where the
/// base64 decoding failed.
pub open spec fn text_of_decoded(decoded: Option<Seq<u8>>) -> Result<Seq<char>, ValueError> {
    match decoded {
        None => Err(ValueError::NotBase64),
        Some(bytes) => if valid_utf8(bytes) {
            Ok(decode_utf8(bytes))
        } else {
            Err(ValueError::NotUtf8)
        },
    }
}

/// The plain text of a value as the registry sends it, base64-encoded.
pub open spec fn spec_deserialize_base64_string(encoded: Seq<char>) -> Result<
    Seq<char>,
    ValueError,
> {
    text_of_decoded(base64_standard_decode(encode_utf8(encoded)))
}

/// Turns the outcome of the base64 decoding into text.
pub fn decoded_text(decoded: Option<Vec<u8>>) -> (text: Result<String, ValueError>)
    ensures
        match text {
            Ok(t) => text_of_decoded(decoded.deep_view()) == Ok::<Seq<char>, ValueError>(t@),
            Err(e) => text_of_decoded(decoded.deep_view()) == Err::<Seq<char>, ValueError>(e),
        },
{
    match decoded {
        None => Err(ValueError::NotBase64),
        Some(bytes) => {
            assert(bytes.deep_view() =~= bytes@);
            match string_from_utf8(bytes) {
                Some(t) => Ok(t),
                None => Err(ValueError::NotUtf8),
            }
        },
    }
}

/// Decodes a value as the registry sends it, base64-encoded, to plain text.
pub fn deserialize_base64_string(encoded: &str) -> (text: Result<String, ValueError>)
    ensures
        match text {
            Ok(t) => spec_deserialize_base64_string(encoded@) == Ok::<Seq<char>, ValueError>(t@),
            Err(e) => spec_deserialize_base64_string(encoded@) == Err::<Seq<char>, ValueError>(e),
        },
{
    let decoded = match decode_standard(encoded.as_bytes()) {
        Ok(bytes) => Some(bytes),
        Err(_) => None,
    };
    assert(decoded.deep_view() =~= base64_standard_decode(encode_utf8(encoded@))) by {
        if let Some(bytes) = decoded {
            assert(bytes.deep_view() =~= bytes@);
        }
    }
    decoded_text(decoded)
}

} // verus!
