//! Base58 text of account keys and signatures.

use vstd::prelude::*;

verus! {

/// The Base58 text of a run of bytes, in the Bitcoin alphabet.
pub uninterp spec fn base58_text(bytes: Seq<u8>) -> Seq<char>;

/// Encodes `bytes` as Base58 text.
///
/// Calls `bs58::encode(..).into_string()`. Believed of it, not proved: the text
/// returned is a function of the bytes alone, here named `base58_text`. The
/// bound on the length keeps the size that `bs58` computes for its buffer, one
/// and a half times the input, within `usize`.
#[verifier::external_body]
pub(crate) fn base58_encode(bytes: &[u8]) -> (text: String)
    requires
        bytes@.len() <= 0x1000_0000,
    ensures
        text@ == base58_text(bytes@),
{
    bs58::encode(bytes).into_string()
}

} // verus!
