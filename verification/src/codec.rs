//! Calls into outside encoders: base64 text of raw bytes, UTF-8 checking and
//! Unicode lower-casing.

use vstd::prelude::*;
use vstd::utf8::*;

verus! {

#[verifier::external_type_specification]
#[verifier::external_body]
pub struct ExDecodeError(base64::DecodeError);

/// The text that `base64::encode_config(bytes, base64::URL_SAFE)` returns.
pub uninterp spec fn base64_url_encode(bytes: Seq<u8>) -> Seq<char>;

/// What `base64::decode_config(input, base64::URL_SAFE)` yields: the decoded
/// bytes, or `None` where it returns an error.
pub uninterp spec fn base64_url_decode(input: Seq<u8>) -> Option<Seq<u8>>;

/// The text that `base64::encode(bytes)` (standard alphabet, padded) returns.
pub uninterp spec fn base64_standard_encode(bytes: Seq<u8>) -> Seq<char>;

/// What `str::to_lowercase` returns for a string.
pub uninterp spec fn lowercase(s: Seq<char>) -> Seq<char>;

/// Length of padded base64 text for `n` input bytes: four characters for each
/// started group of three bytes.
pub open spec fn base64_padded_len(n: nat) -> nat {
    4 * ((n + 2) / 3)
}

/// Calls `base64::encode_config(bytes, base64::URL_SAFE)`.
///
/// Trusted: the result is the named encoding of `bytes`; it has the padded
/// length that `encoded_size` computes for a padding configuration; it is
/// made of the URL-safe alphabet and `=`, so it is ASCII; and decoding its
/// bytes with the same configuration gives `bytes` back. The call panics
/// when the padded length overflows `usize`, which `requires` rules out.
#[verifier::external_body]
pub(crate) fn encode_url_safe(bytes: &[u8]) -> (text: String)
    requires
        base64_padded_len(bytes@.len()) <= usize::MAX,
    ensures
        text@ == base64_url_encode(bytes@),
        text@.len() == base64_padded_len(bytes@.len()),
        is_ascii_chars(text@),
        base64_url_decode(encode_utf8(text@)) == Some(bytes@),
{
    base64::encode_config(bytes, base64::URL_SAFE)
}

/// Calls `base64::decode_config(input, base64::URL_SAFE)`.
///
/// Trusted: the call succeeds exactly where the named decoding is defined,
/// and then returns it. It panics when `input.len() + 3` overflows, which
/// `requires` rules out.
#[verifier::external_body]
pub(crate) fn decode_url_safe(input: &[u8]) -> (res: Result<Vec<u8>, base64::DecodeError>)
    requires
        input@.len() + 3 <= usize::MAX,
    ensures
        res is Ok <==> base64_url_decode(input@) is Some,
        res matches Ok(v) ==> Some(v@) == base64_url_decode(input@),
{
    base64::decode_config(input, base64::URL_SAFE)
}

/// Calls `base64::encode(bytes)`.
///
/// Trusted: the result is the named standard encoding of `bytes`. The call
/// panics when the padded length overflows `usize`, which `requires` rules
/// out.
#[verifier::external_body]
pub(crate) fn encode_standard(bytes: &[u8]) -> (text: String)
    requires
        base64_padded_len(bytes@.len()) <= usize::MAX,
    ensures
        text@ == base64_standard_encode(bytes@),
{
    base64::encode(bytes)
}

/// Calls `std::str::from_utf8`.
///
/// Trusted, as its documentation states: it succeeds exactly on valid UTF-8,
/// and the text then holds the characters that the bytes encode.
#[verifier::external_body]
pub(crate) fn utf8_text(bytes: &[u8]) -> (res: Option<&str>)
    ensures
        res is Some <==> valid_utf8(bytes@),
        res matches Some(s) ==> s@ == decode_utf8(bytes@),
{
    std::str::from_utf8(bytes).ok()
}

/// Calls `str::to_lowercase`.
///
/// Trusted: the result is the named lower-case form of `s`; nothing more
/// about Unicode case mapping is stated.
#[verifier::external_body]
pub(crate) fn to_lowercase(s: &str) -> (res: String)
    ensures
        res@ == lowercase(s@),
{
    s.to_lowercase()
}

} // verus!
