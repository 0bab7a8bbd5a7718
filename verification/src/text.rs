//! Decoding of the engine's textual rendering.

use vstd::prelude::*;
use vstd::utf8::*;

verus! {

/// Why a rendering failed.
#[derive(Clone, Copy, Debug, PartialEq, Eq, Structural)]
pub enum FormatError {
    /// The engine yielded no text at all.
    NoText,
    /// The engine's bytes are not UTF-8 text.
    NotText,
}

/// `String::from_utf8` of the standard library: it yields a string exactly
/// when the bytes are valid UTF-8, and the string then holds the characters
/// that the bytes encode.
#[verifier::external_body]
pub(crate) fn string_from_utf8(bytes: Vec<u8>) -> (r: Option<String>)
    ensures
        r is Some <==> valid_utf8(bytes@),
        r matches Some(s) ==> s@ == decode_utf8(bytes@),
{
    String::from_utf8(bytes).ok()
}

/// What a rendering yields for the bytes that the engine handed out, `None`
/// standing for the absence of any text.
pub open spec fn rendering(raw: Option<Vec<u8>>) -> Result<Seq<char>, FormatError> {
    match raw {
        None => Err(FormatError::NoText),
        Some(bytes) => if valid_utf8(bytes@) {
            Ok(decode_utf8(bytes@))
        } else {
            Err(FormatError::NotText)
        },
    }
}

/// The characters of a rendering's result.
pub open spec fn rendered(r: Result<String, FormatError>) -> Result<Seq<char>, FormatError> {
    match r {
        Ok(s) => Ok(s@),
        Err(e) => Err(e),
    }
}

} // verus!
