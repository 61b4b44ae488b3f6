//! Byte and text decoders that the request description is built from, and the
//! JSON value type that a body may parse into.

use crate::entries::{entries_view, PairView};
use vstd::prelude::*;
use vstd::utf8::{decode_utf8, valid_utf8};

verus! {

#[verifier::external_type_specification]
#[verifier::external_body]
pub struct ExJsonValue(serde_json::Value);

/// Whether a byte string is accepted by serde_json as one JSON document.
pub uninterp spec fn json_accepts(b: Seq<u8>) -> bool;

/// The standard base64 alphabet encoding, with padding, of a byte string.
pub uninterp spec fn base64_of(b: Seq<u8>) -> Seq<char>;

/// UTF-8 decoding that puts U+FFFD in place of each ill-formed sequence.
pub uninterp spec fn utf8_lossy_of(b: Seq<u8>) -> Seq<char>;

/// The decoded name/value pairs of an `application/x-www-form-urlencoded` string.
pub uninterp spec fn form_pairs_of(b: Seq<u8>) -> Seq<PairView>;

/// The value of an ASCII hexadecimal digit.
pub open spec fn hex_value(b: u8) -> Option<u8> {
    if 0x30 <= b <= 0x39 {
        Some((b - 0x30) as u8)
    } else if 0x41 <= b <= 0x46 {
        Some((b - 0x37) as u8)
    } else if 0x61 <= b <= 0x66 {
        Some((b - 0x57) as u8)
    } else {
        None
    }
}

/// Percent-decoding: each `%` followed by two hexadecimal digits becomes the
/// byte they spell; every other byte, a lone `%` included, stays as it is.
pub open spec fn percent_decoded(s: Seq<u8>) -> Seq<u8>
    decreases s.len(),
{
    if s.len() == 0 {
        s
    } else if s[0] == 0x25 && s.len() >= 3 && hex_value(s[1]) is Some && hex_value(s[2]) is Some {
        seq![(hex_value(s[1])->0 * 16 + hex_value(s[2])->0) as u8] + percent_decoded(s.skip(3))
    } else {
        seq![s[0]] + percent_decoded(s.skip(1))
    }
}

/// Relies on serde_json::from_slice::<Value>: the value parsed from the bytes,
/// present exactly when they form one JSON document.
#[verifier::external_body]
pub(crate) fn parse_json(b: &[u8]) -> (r: Option<serde_json::Value>)
    ensures
        r is Some == json_accepts(b@),
{
    serde_json::from_slice::<serde_json::Value>(b).ok()
}

/// Relies on std::str::from_utf8: the text, present exactly when the bytes are
/// well-formed UTF-8.
#[verifier::external_body]
pub(crate) fn utf8_text(b: &[u8]) -> (r: Option<String>)
    ensures
        r is Some == valid_utf8(b@),
        r matches Some(s) ==> s@ == decode_utf8(b@),
{
    std::str::from_utf8(b).ok().map(|s| s.to_string())
}

/// Relies on String::from_utf8_lossy: lossy decoding, which leaves well-formed
/// UTF-8 as it decodes.
#[verifier::external_body]
pub(crate) fn utf8_lossy(b: &[u8]) -> (r: String)
    ensures
        r@ == utf8_lossy_of(b@),
        valid_utf8(b@) ==> r@ == decode_utf8(b@),
{
    String::from_utf8_lossy(b).into_owned()
}

/// Relies on base64's STANDARD engine `encode`: padded output, four characters
/// for each started group of three bytes.
#[verifier::external_body]
pub(crate) fn base64_encode(b: &[u8]) -> (r: String)
    ensures
        r@ == base64_of(b@),
        r@.len() == 4 * ((b@.len() + 2) / 3),
{
    base64::Engine::encode(&base64::engine::general_purpose::STANDARD, b)
}

/// Relies on percent_encoding::percent_decode, collected into bytes.
#[verifier::external_body]
pub(crate) fn percent_decode(b: &[u8]) -> (r: Vec<u8>)
    ensures
        r@ == percent_decoded(b@),
{
    percent_encoding::percent_decode(b).collect()
}

/// Relies on form_urlencoded::parse: the decoded pairs in their order; an empty
/// input has none.
#[verifier::external_body]
pub(crate) fn parse_form(b: &[u8]) -> (r: Vec<(String, String)>)
    ensures
        entries_view(r@) == form_pairs_of(b@),
        b@.len() == 0 ==> r@.len() == 0,
{
    form_urlencoded::parse(b).map(|(k, v)| (k.into_owned(), v.into_owned())).collect()
}

} // verus!
