//! The compute half of image capture: turning a fetched payload into the
//! stored record.  The fetch itself (an HTTP round trip) happens outside;
//! this module only encodes and sizes what came back.

use vstd::prelude::*;

verus! {

/// The base64 encoding (standard alphabet, padded) of a byte string; a
/// function of the bytes alone.
pub uninterp spec fn b64_of(bytes: Seq<u8>) -> Seq<char>;

/// Relies on base64's STANDARD engine: encodes with padding, four output
/// characters for every started group of three input bytes, and the result
/// depends on the input bytes alone.
#[verifier::external_body]
fn b64_encode(bytes: &Vec<u8>) -> (r: String)
    ensures
        r@ == b64_of(bytes@),
        r@.len() == 4 * ((bytes@.len() + 2) / 3),
{
    base64::Engine::encode(&base64::engine::general_purpose::STANDARD, bytes.as_slice())
}

/// Builds the stored image fields from a fetched response: for a successful
/// fetch the payload is base64-encoded and its size recorded alongside the
/// reported mime type; for a failed one every field is absent.
pub fn encode_image_b64(ok: bool, bytes: &Vec<u8>, mime: Option<String>) -> (r: (
    Option<String>,
    Option<String>,
    Option<i64>,
))
    requires
        bytes@.len() <= i64::MAX,
    ensures
        !ok ==> r == (None::<String>, None::<String>, None::<i64>),
        ok ==> {
            &&& r.0 matches Some(s) && s@ == b64_of(bytes@)
            &&& r.1 == mime
            &&& r.2 == Some(bytes@.len() as i64)
        },
{
    if !ok {
        return (None, None, None);
    }
    let b = b64_encode(bytes);
    let len = bytes.len() as i64;
    (Some(b), mime, Some(len))
}

} // verus!
