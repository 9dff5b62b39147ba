//! Decoding of bytes read off the wire into report text. Decoding is
//! lossy: invalid sequences are replaced, valid UTF-8 comes through
//! unchanged. Encoding of outbound text is exact UTF-8.

use vstd::prelude::*;
use vstd::string::StrSliceExecFns;
use vstd::utf8::{decode_utf8, encode_utf8, valid_utf8};

verus! {

/// The text that lossy decoding yields for a byte sequence. It depends on
/// the bytes alone; on valid UTF-8 it agrees with `decode_utf8`.
pub uninterp spec fn lossy_text(bytes: Seq<u8>) -> Seq<char>;

/// Relies on `String::from_utf8_lossy` of std: the result is a function of
/// the bytes alone, and bytes that are valid UTF-8 decode unchanged.
#[verifier::external_body]
pub fn decode_lossy(bytes: &Vec<u8>) -> (text: String)
    ensures
        text@ == lossy_text(bytes@),
        valid_utf8(bytes@) ==> text@ == decode_utf8(bytes@),
{
    String::from_utf8_lossy(bytes.as_slice()).into_owned()
}

/// The UTF-8 bytes of a payload, as they are put on the wire.
pub fn encode_text(text: &str) -> (bytes: Vec<u8>)
    ensures
        bytes@ == encode_utf8(text@),
{
    text.as_bytes_vec()
}

/// A nonempty payload encodes to at least one byte on the wire.
pub proof fn lemma_encode_nonempty(text: Seq<char>)
    requires
        text.len() > 0,
    ensures
        encode_utf8(text).len() > 0,
{
    assert(encode_utf8(text) == vstd::utf8::encode_scalar(text[0] as u32) + encode_utf8(
        text.drop_first(),
    ));
    assert(vstd::utf8::encode_scalar(text[0] as u32).len() > 0);
}

/// Decoding inverts encoding: a payload sent as its UTF-8 bytes and read
/// back whole decodes to the payload itself.
pub proof fn lemma_decode_inverts_encode(text: Seq<char>)
    ensures
        valid_utf8(encode_utf8(text)),
        decode_utf8(encode_utf8(text)) == text,
{
    broadcast use vstd::utf8::encode_utf8_valid_utf8;
    broadcast use vstd::utf8::encode_utf8_decode_utf8;

}

} // verus!
