//! Decompression of the blocks of a `.bin` file.

use vstd::prelude::*;

verus! {

/// The error of an input or output operation.
#[verifier::external_type_specification]
#[verifier::external_body]
pub struct ExIoError(std::io::Error);

/// What decoding `bytes` as zstd frames gives: the decoded bytes, or nothing
/// where `bytes` are not in the zstd frame format.
pub uninterp spec fn zstd_decoding(bytes: Seq<u8>) -> Option<Seq<u8>>;

/// Decodes zstd frames held in memory.
///
/// Calls `zstd::stream::decode_all`. Believed of it, not proved: whether it
/// succeeds and what it returns are functions of the bytes alone, here named
/// `zstd_decoding`.
#[verifier::external_body]
pub(crate) fn zstd_decode_all(bytes: &[u8]) -> (decoded: Result<Vec<u8>, std::io::Error>)
    ensures
        match decoded {
            Ok(data) => zstd_decoding(bytes@) == Some(data@),
            Err(_) => zstd_decoding(bytes@) is None,
        },
{
    zstd::stream::decode_all(bytes)
}

/// The decoded bytes of a compressed block, or nothing where the block does
/// not decode.
pub fn unpack_block(compressed: &[u8]) -> (packed: Option<Vec<u8>>)
    ensures
        match packed {
            Some(data) => zstd_decoding(compressed@) == Some(data@),
            None => zstd_decoding(compressed@) is None,
        },
{
    match zstd_decode_all(compressed) {
        Ok(data) => Some(data),
        Err(_) => None,
    }
}

} // verus!
