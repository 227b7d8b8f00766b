//! The outside encodings that cursors go through: base64 and UTF-8.

use vstd::prelude::*;
use vstd::utf8::*;
use vstd::string::*;

verus! {

/// The text that the standard base64 engine, with padding, writes for
/// `bytes`.
pub uninterp spec fn base64_text(bytes: Seq<u8>) -> Seq<char>;

/// The bytes that the standard base64 engine, with padding, reads from
/// `text`; `None` where it rejects the text.
pub uninterp spec fn base64_payload(text: Seq<char>) -> Option<Seq<u8>>;

/// `base64::Engine::encode` on `base64::engine::general_purpose::STANDARD`.
/// The contract names the text that comes out, and claims that the same
/// engine reads the input back from it. The call panics where the encoded
/// length does not fit in `usize`, so such inputs are left out.
#[verifier::external_body]
pub(crate) fn encode_standard(input: &[u8]) -> (text: String)
    requires
        4 * (input@.len() / 3 + 1) <= usize::MAX,
    ensures
        text@ == base64_text(input@),
        base64_payload(text@) == Some(input@),
{
    base64::Engine::encode(&base64::engine::general_purpose::STANDARD, input)
}

/// `base64::Engine::decode` on `base64::engine::general_purpose::STANDARD`.
/// The contract names what comes out; a decoding error becomes `None`.
#[verifier::external_body]
pub(crate) fn decode_standard(text: &str) -> (payload: Option<Vec<u8>>)
    ensures
        payload is Some <==> base64_payload(text@) is Some,
        payload matches Some(bytes) ==> base64_payload(text@) == Some(bytes@),
{
    base64::Engine::decode(&base64::engine::general_purpose::STANDARD, text).ok()
}

#[verifier::external_type_specification]
#[verifier::external_body]
pub struct ExUtf8Error(core::str::Utf8Error);

/// `core::str::from_utf8` accepts exactly the byte strings that are valid
/// UTF-8, and hands back a text with those bytes.
pub assume_specification<'a>[ core::str::from_utf8 ](bytes: &'a [u8]) -> (text: Result<
    &'a str,
    core::str::Utf8Error,
>)
    ensures
        text is Ok <==> valid_utf8(bytes@),
        text matches Ok(t) ==> t.spec_bytes() == bytes@,
;

} // verus!
