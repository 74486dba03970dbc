//! Page images as they cross to and from the host: base64 data URLs.
use vstd::prelude::*;
use vstd::string::StringExecFns;
use base64::Engine;
use crate::model::{is_prefix, starts_with};

verus! {

/// The bytes that the standard base64 alphabet, padded, decodes `s` to;
/// `None` when `s` is not valid base64.
pub uninterp spec fn base64_decoded(s: Seq<char>) -> Option<Seq<u8>>;

/// The standard, padded base64 text of `b`.
pub uninterp spec fn base64_encoded(b: Seq<u8>) -> Seq<char>;

/// Relies on `base64::engine::general_purpose::STANDARD.decode`: it succeeds
/// exactly on valid padded standard base64, and the bytes depend on the text
/// alone.
#[verifier::external_body]
fn decode_base64(s: &str) -> (r: Result<Vec<u8>, String>)
    ensures
        match r {
            Ok(v) => base64_decoded(s@) == Some(v@),
            Err(_) => base64_decoded(s@) is None,
        },
{
    base64::engine::general_purpose::STANDARD.decode(s).map_err(|e| e.to_string())
}

/// Relies on `base64::engine::general_purpose::STANDARD.encode`: the text
/// depends on the bytes alone.
#[verifier::external_body]
fn encode_base64(b: &Vec<u8>) -> (r: String)
    ensures
        r@ == base64_encoded(b@),
{
    base64::engine::general_purpose::STANDARD.encode(b)
}

/// Why an image payload could not be read.
#[derive(Clone, Debug, PartialEq, Eq)]
pub enum ExportError {
    /// The payload is not valid base64; the decoder's own message.
    Decode(String),
}

/// The base64 payload of an image: the text after a PNG or JPEG data-URL
/// header, or the whole text when it has neither.
pub open spec fn payload_of(s: Seq<char>) -> Seq<char> {
    if is_prefix("data:image/png;base64,"@, s) {
        s.subrange("data:image/png;base64,"@.len() as int, s.len() as int)
    } else if is_prefix("data:image/jpeg;base64,"@, s) {
        s.subrange("data:image/jpeg;base64,"@.len() as int, s.len() as int)
    } else {
        s
    }
}

/// Strips a PNG or JPEG data-URL header (see `payload_of`).
pub fn data_url_payload(s: &str) -> (r: &str)
    ensures
        r@ == payload_of(s@),
{
    let n = s.unicode_len();
    let png = "data:image/png;base64,";
    let jpeg = "data:image/jpeg;base64,";
    if starts_with(s, png) {
        s.substring_char(png.unicode_len(), n)
    } else if starts_with(s, jpeg) {
        s.substring_char(jpeg.unicode_len(), n)
    } else {
        s
    }
}

/// The image bytes that a data URL (or bare base64 text) carries.
pub fn decode_image_payload(data_url: &str) -> (r: Result<Vec<u8>, ExportError>)
    ensures
        match base64_decoded(payload_of(data_url@)) {
            Some(b) => r matches Ok(v) && v@ == b,
            None => r is Err,
        },
{
    match decode_base64(data_url_payload(data_url)) {
        Ok(v) => Ok(v),
        Err(e) => Err(ExportError::Decode(e)),
    }
}

/// A JPEG data URL carrying `bytes`.
pub fn jpeg_data_url(bytes: &Vec<u8>) -> (r: String)
    ensures
        r@ == "data:image/jpeg;base64,"@ + base64_encoded(bytes@),
{
    let encoded = encode_base64(bytes);
    String::from_str("data:image/jpeg;base64,").concat(encoded.as_str())
}

} // verus!
