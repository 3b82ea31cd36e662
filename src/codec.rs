//! Base64 text for signatures and for the `base64` command.
use crate::cliopts::Base64Format;
use vstd::prelude::*;

verus! {

#[verifier::external_type_specification]
#[verifier::external_body]
pub struct ExDecodeError(base64::DecodeError);

/// The URL-safe base64 text of `bytes`, without padding.
pub uninterp spec fn base64_url(bytes: Seq<u8>) -> Seq<char>;

/// The bytes that URL-safe unpadded base64 `text` stands for, if it is such text.
pub uninterp spec fn base64_url_decoded(text: Seq<char>) -> Option<Seq<u8>>;

/// The standard base64 text of `bytes`, with padding.
pub uninterp spec fn base64_standard(bytes: Seq<u8>) -> Seq<char>;

/// The bytes that standard padded base64 `text` stands for, if it is such text.
pub uninterp spec fn base64_standard_decoded(text: Seq<char>) -> Option<Seq<u8>>;

/// The text with its trailing whitespace removed.
pub uninterp spec fn trimmed_end(text: Seq<char>) -> Seq<char>;

/// Relies on `Engine::encode` of `base64::engine::general_purpose::URL_SAFE_NO_PAD`:
/// the text depends on the bytes alone, and the same engine decodes it back to
/// them (the encoding leaves no padding and no trailing bits, as its decoding
/// requires).
#[verifier::external_body]
fn url_safe_encode(bytes: &[u8]) -> (r: String)
    ensures
        r@ == base64_url(bytes@),
        base64_url_decoded(r@) == Some(bytes@),
{
    base64::Engine::encode(&base64::engine::general_purpose::URL_SAFE_NO_PAD, bytes)
}

/// Relies on `Engine::decode` of `base64::engine::general_purpose::URL_SAFE_NO_PAD`:
/// the outcome depends on the text alone.
#[verifier::external_body]
fn url_safe_decode(text: &str) -> (r: Result<Vec<u8>, base64::DecodeError>)
    ensures
        r matches Ok(v) ==> base64_url_decoded(text@) == Some(v@),
        r is Err ==> base64_url_decoded(text@) is None,
{
    base64::Engine::decode(&base64::engine::general_purpose::URL_SAFE_NO_PAD, text)
}

/// Relies on `Engine::encode` of `base64::engine::general_purpose::STANDARD`:
/// the text depends on the bytes alone, and the same engine decodes it back to
/// them.
#[verifier::external_body]
fn standard_encode(bytes: &[u8]) -> (r: String)
    ensures
        r@ == base64_standard(bytes@),
        base64_standard_decoded(r@) == Some(bytes@),
{
    base64::Engine::encode(&base64::engine::general_purpose::STANDARD, bytes)
}

/// Relies on `Engine::decode` of `base64::engine::general_purpose::STANDARD`:
/// the outcome depends on the text alone.
#[verifier::external_body]
fn standard_decode(text: &str) -> (r: Result<Vec<u8>, base64::DecodeError>)
    ensures
        r matches Ok(v) ==> base64_standard_decoded(text@) == Some(v@),
        r is Err ==> base64_standard_decoded(text@) is None,
{
    base64::Engine::decode(&base64::engine::general_purpose::STANDARD, text)
}

/// Relies on `str::trim_end`: the result depends on the text alone.
#[verifier::external_body]
fn trim_end(text: &str) -> (r: &str)
    ensures
        r@ == trimmed_end(text@),
{
    text.trim_end()
}

/// The text that carries a signature: URL-safe base64 without padding.
/// Decoding the text gives back the signature.
pub fn encode_signature(sig: &[u8]) -> (r: String)
    ensures
        r@ == base64_url(sig@),
        base64_url_decoded(r@) == Some(sig@),
{
    url_safe_encode(sig)
}

/// The signature bytes carried by `text`; `None` when the text is not
/// URL-safe unpadded base64.
pub fn decode_signature(text: &str) -> (r: Option<Vec<u8>>)
    ensures
        match base64_url_decoded(text@) {
            Some(b) => (r matches Some(v) && v@ == b),
            None => r is None,
        },
{
    match url_safe_decode(text) {
        Ok(v) => Some(v),
        Err(_) => None,
    }
}

/// The base64 text of `data` in the given alphabet.
pub open spec fn base64_text(format: Base64Format, data: Seq<u8>) -> Seq<char> {
    match format {
        Base64Format::Standard => base64_standard(data),
        Base64Format::UrlSafe => base64_url(data),
    }
}

/// The bytes that base64 `text` in the given alphabet stands for, if any.
pub open spec fn base64_bytes(format: Base64Format, text: Seq<char>) -> Option<Seq<u8>> {
    match format {
        Base64Format::Standard => base64_standard_decoded(text),
        Base64Format::UrlSafe => base64_url_decoded(text),
    }
}

/// Encodes `data` as base64 in the given alphabet; decoding the text in the
/// same alphabet gives back `data`.
pub fn encode_base64(format: Base64Format, data: &[u8]) -> (r: String)
    ensures
        r@ == base64_text(format, data@),
        base64_bytes(format, r@) == Some(data@),
{
    match format {
        Base64Format::Standard => standard_encode(data),
        Base64Format::UrlSafe => url_safe_encode(data),
    }
}

/// Decodes base64 text in the given alphabet, once trailing whitespace (a
/// final line break) is removed; `None` when what is left is not such text.
pub fn decode_base64(format: Base64Format, text: &str) -> (r: Option<Vec<u8>>)
    ensures
        match base64_bytes(format, trimmed_end(text@)) {
            Some(b) => (r matches Some(v) && v@ == b),
            None => r is None,
        },
{
    let body = trim_end(text);
    let decoded = match format {
        Base64Format::Standard => standard_decode(body),
        Base64Format::UrlSafe => url_safe_decode(body),
    };
    match decoded {
        Ok(v) => Some(v),
        Err(_) => None,
    }
}

} // verus!
