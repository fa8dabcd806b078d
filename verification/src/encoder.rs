//! Rendering key bytes as text in the canonical Base58 form.

use vstd::prelude::*;

verus! {

/// The Base58 rendering (Bitcoin alphabet) of a byte sequence. The encoding
/// is deterministic, a function of the bytes alone; it is named here rather
/// than written out, and `encode` is the only way to compute it.
pub uninterp spec fn base58_of(bytes: Seq<u8>) -> Seq<char>;

/// Relies on `bs58::encode(..).into_string()` with its default (Bitcoin)
/// alphabet: the returned string is the Base58 rendering of the input bytes
/// and depends on them alone.
#[verifier::external_body]
fn encode_base58(bytes: &Vec<u8>) -> (r: String)
    ensures
        r@ == base58_of(bytes@),
{
    bs58::encode(bytes.as_slice()).into_string()
}

/// Renders `bytes` in Base58. Same bytes always yield the same string.
pub fn encode(bytes: &Vec<u8>) -> (r: String)
    ensures
        r@ == base58_of(bytes@),
{
    encode_base58(bytes)
}

} // verus!
