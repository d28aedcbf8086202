use vstd::prelude::*;
use base64::Engine;

verus! {

/// What the standard base64 alphabet, with padding, makes of a byte string.
pub uninterp spec fn base64_text_of(b: Seq<u8>) -> Seq<char>;

/// The bytes that a text decodes to under standard padded base64, if it is
/// valid base64 at all.
pub uninterp spec fn base64_bytes_of(s: Seq<char>) -> Option<Seq<u8>>;

/// Relies on `base64::engine::general_purpose::STANDARD.encode`: the text is
/// a function of the bytes alone.
#[verifier::external_body]
pub(crate) fn encode_base64(b: &[u8]) -> (r: String)
    ensures
        r@ == base64_text_of(b@),
{
    base64::engine::general_purpose::STANDARD.encode(b)
}

/// Relies on `base64::engine::general_purpose::STANDARD.decode`: the result
/// is a function of the text alone; its `DecodeError` becomes `None`.
#[verifier::external_body]
pub(crate) fn decode_base64(s: &str) -> (r: Option<Vec<u8>>)
    ensures
        match r {
            Some(v) => base64_bytes_of(s@) == Some(v@),
            None => base64_bytes_of(s@) is None,
        },
{
    match base64::engine::general_purpose::STANDARD.decode(s) {
        Ok(v) => Some(v),
        Err(_) => None,
    }
}

} // verus!
