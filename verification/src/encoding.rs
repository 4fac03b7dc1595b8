//! Base64, done by the `base64` crate.

use base64::engine::general_purpose::STANDARD;
use base64::Engine;
use vstd::prelude::*;

verus! {

/// The text that the crate's `STANDARD` engine makes of bytes: base64 in the
/// standard alphabet, padded.
pub uninterp spec fn base64_standard(bytes: Seq<u8>) -> Seq<char>;

/// An input of `len` bytes is short enough for the engine to allocate its
/// output: four bytes for every three, and four more, within `isize::MAX`.
pub open spec fn base64_fits(len: nat) -> bool {
    len / 3 <= (isize::MAX - 4) / 4
}

/// `Engine::encode` of the `STANDARD` engine. The engine panics where it
/// cannot size or allocate its output; such inputs are left out.
#[verifier::external_body]
pub(crate) fn base64_encode(input: &[u8]) -> (text: String)
    requires
        base64_fits(input@.len()),
    ensures
        text@ == base64_standard(input@),
{
    STANDARD.encode(input)
}

} // verus!
