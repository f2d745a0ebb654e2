//! Standard base64, as the `base64` crate computes it.

use vstd::prelude::*;
use base64::Engine;

verus! {

/// The text that the standard base64 engine, padded and without line breaks,
/// gives for `data`.
pub uninterp spec fn base64_standard(data: Seq<u8>) -> Seq<char>;

/// The bytes that the standard base64 engine reads back from `text`, or `None`
/// where it rejects the text.
pub uninterp spec fn base64_standard_decoded(text: Seq<char>) -> Option<Seq<u8>>;

/// The length of the padded base64 text for `len` bytes.
pub open spec fn encoded_len(len: nat) -> nat {
    (len / 3) * 4 + if len % 3 > 0 { 4nat } else { 0nat }
}

/// The padded base64 text for `len` bytes has a length that `usize` can hold.
pub open spec fn encodable(len: nat) -> bool {
    encoded_len(len) <= usize::MAX
}

/// Calls `base64::engine::general_purpose::STANDARD.encode`.
///
/// Trusted: the text returned is what the engine gives for `data`, it has
/// four characters for every three bytes begun, and the same engine decodes
/// it back to `data`. The engine panics where the length of the text
/// overflows `usize`, so such inputs are excluded.
#[verifier::external_body]
pub(crate) fn encode_standard(data: &[u8]) -> (text: String)
    requires
        encodable(data@.len()),
    ensures
        text@ == base64_standard(data@),
        text@.len() == encoded_len(data@.len()),
        base64_standard_decoded(text@) == Some(data@),
{
    base64::engine::general_purpose::STANDARD.encode(data)
}

/// Calls `base64::engine::general_purpose::STANDARD.decode`.
///
/// Trusted: the bytes returned are what the engine reads back from `text`,
/// and `None` is returned exactly where the engine rejects the text.
#[verifier::external_body]
pub(crate) fn decode_standard(text: &str) -> (data: Option<Vec<u8>>)
    ensures
        match data {
            Some(bytes) => base64_standard_decoded(text@) == Some(bytes@),
            None => base64_standard_decoded(text@) is None,
        },
{
    base64::engine::general_purpose::STANDARD.decode(text).ok()
}

} // verus!
