//! Standard base64, as the broker's wire format carries every byte string.

use vstd::prelude::*;

verus! {

/// The standard base64 text (with padding) of a byte string.
pub uninterp spec fn base64_text(bytes: Seq<u8>) -> Seq<char>;

/// The byte string that a standard base64 text stands for, if it is one.
pub uninterp spec fn base64_bytes(text: Seq<char>) -> Option<Seq<u8>>;

/// Whether the base64 text of this many bytes has a length that the machine
/// can count: four characters for every three bytes begun.
pub open spec fn base64_fits(len: nat) -> bool {
    len / 3 * 4 + 4 <= usize::MAX
}

/// Whether the base64 text of this many bytes has a length that the machine
/// can count.
pub fn fits_base64(len: usize) -> (r: bool)
    ensures
        r == base64_fits(len as nat),
{
    len / 3 <= (usize::MAX - 4) / 4
}

/// Calls `Engine::encode` of the base64 crate's `STANDARD` engine. Trusted:
/// the text is a function of the bytes alone, and decoding it with the same
/// engine gives the bytes back. The crate stops where the text's length
/// overflows, so such an input is left out.
#[verifier::external_body]
pub(crate) fn base64_encode(bytes: &[u8]) -> (text: String)
    requires
        base64_fits(bytes@.len()),
    ensures
        text@ == base64_text(bytes@),
        base64_bytes(text@) == Some(bytes@),
{
    base64::Engine::encode(&base64::engine::general_purpose::STANDARD, bytes)
}

/// Calls `Engine::decode` of the base64 crate's `STANDARD` engine. Trusted:
/// whether the text decodes, and to which bytes, is a function of the text
/// alone; a decoding error becomes `None`.
#[verifier::external_body]
pub(crate) fn base64_decode(text: &str) -> (bytes: Option<Vec<u8>>)
    ensures
        match base64_bytes(text@) {
            Some(b) => bytes matches Some(v) && v@ == b,
            None => bytes is None,
        },
{
    base64::Engine::decode(&base64::engine::general_purpose::STANDARD, text).ok()
}

} // verus!
