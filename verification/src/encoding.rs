//! Base64 text of binary data, as handed to the front end.

use vstd::prelude::*;

verus! {

/// The text that the `base64` crate's `STANDARD` engine (the RFC 4648
/// alphabet, with padding) gives for `data`.
pub uninterp spec fn base64_standard(data: Seq<u8>) -> Seq<char>;

/// Whether the encoded length of `len` bytes, four characters for every
/// three bytes or part of three, still fits the machine's word.
pub open spec fn base64_fits(len: nat) -> bool {
    (len + 2) / 3 * 4 <= usize::MAX
}

/// Trusted: `base64::Engine::encode` on `base64::engine::general_purpose::STANDARD`.
/// The contract names the text it returns and claims nothing else of it.
/// The call panics where the encoded length overflows `usize`; the
/// precondition keeps such input away.
#[verifier::external_body]
pub(crate) fn encode_standard(data: &[u8]) -> (text: String)
    requires
        base64_fits(data@.len()),
    ensures
        text@ == base64_standard(data@),
{
    base64::Engine::encode(&base64::engine::general_purpose::STANDARD, data)
}

/// Whether `len` bytes can be encoded on this machine.
pub fn can_encode(len: usize) -> (r: bool)
    ensures
        r == base64_fits(len as nat),
{
    let groups: usize = if len % 3 == 0 {
        len / 3
    } else {
        len / 3 + 1
    };
    groups <= usize::MAX / 4
}

} // verus!
