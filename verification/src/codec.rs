//! The binary field codec.
//!
//! A data-URI field carries binary data as text: a fixed-length header
//! (`data:image/png;base64,`, 22 bytes) followed by a MIME-variant base64
//! payload.  Decoding discards the first 22 bytes unconditionally — the
//! format relies on the fixed offset, not on scanning for the `,` — and
//! base64-decodes the remainder.  The base64 work itself is delegated to
//! the `base64` crate through the trusted items below.

use vstd::prelude::*;

use crate::DATA_URI_HEADER_LEN;

verus! {

/// What MIME-variant base64 decoding yields of a payload: the decoded
/// bytes, or `None` when the payload is not valid base64.
pub uninterp spec fn mime_decoded(payload: Seq<u8>) -> Option<Seq<u8>>;

/// The MIME-variant base64 encoding of a byte sequence.
pub uninterp spec fn mime_encoded(data: Seq<u8>) -> Seq<u8>;

/// Relies on `base64::decode_config` with `base64::MIME`: the decoded bytes
/// are a function of the payload alone.
#[verifier::external_body]
pub fn base64_mime_decode(payload: &[u8]) -> (r: Option<Vec<u8>>)
    ensures
        r matches Some(b) ==> mime_decoded(payload@) == Some(b@),
        r is None ==> mime_decoded(payload@) is None,
{
    base64::decode_config(payload, base64::MIME).ok()
}

/// Relies on `base64::encode_config` with `base64::MIME`, and on decoding
/// with the same configuration giving back exactly the bytes that were
/// encoded.
#[verifier::external_body]
pub fn base64_mime_encode(data: &[u8]) -> (r: Vec<u8>)
    ensures
        r@ == mime_encoded(data@),
        mime_decoded(r@) == Some(data@),
{
    base64::encode_config(data, base64::MIME).into_bytes()
}

/// What decoding a data-URI field yields: an error for a field shorter than
/// the fixed header, or for a payload that is not valid base64.
pub open spec fn spec_decode_data_uri(field: Seq<u8>) -> Option<Seq<u8>> {
    if field.len() < DATA_URI_HEADER_LEN {
        None
    } else {
        mime_decoded(field.skip(DATA_URI_HEADER_LEN as int))
    }
}

/// Decodes a data-URI field, as [`spec_decode_data_uri`] describes.
pub fn decode_data_uri(field: &[u8]) -> (r: Option<Vec<u8>>)
    ensures
        r matches Some(b) ==> spec_decode_data_uri(field@) == Some(b@),
        r is None ==> spec_decode_data_uri(field@) is None,
{
    if field.len() < DATA_URI_HEADER_LEN {
        None
    } else {
        let payload = vstd::slice::slice_subrange(field, DATA_URI_HEADER_LEN, field.len());
        base64_mime_decode(payload)
    }
}

/// The header written in front of every re-serialized binary field:
/// `data:image/png;base64,`, which is exactly
/// [`DATA_URI_HEADER_LEN`] bytes, so that decoding skips precisely it.
pub fn data_uri_header_bytes() -> (r: Vec<u8>)
    ensures
        r@.len() == DATA_URI_HEADER_LEN,
{
    let s = "data:image/png;base64,";
    proof {
        reveal_strlit("data:image/png;base64,");
        assert(vstd::utf8::is_ascii_chars(s@));
        vstd::utf8::is_ascii_chars_encode_utf8(s@);
    }
    let b = s.as_bytes();
    vstd::slice::slice_to_vec(b)
}

/// Encodes a byte sequence as a data-URI field that
/// [`spec_decode_data_uri`] maps back to exactly those bytes.
pub fn encode_data_uri(data: &[u8]) -> (r: Vec<u8>)
    ensures
        spec_decode_data_uri(r@) == Some(data@),
{
    let mut out = data_uri_header_bytes();
    let mut enc = base64_mime_encode(data);
    out.append(&mut enc);
    proof {
        assert(out@.skip(DATA_URI_HEADER_LEN as int) =~= mime_encoded(data@));
    }
    out
}

} // verus!
