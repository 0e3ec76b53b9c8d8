//! SHA-256 fingerprints of analysed text.

use sha2::Digest;
use vstd::prelude::*;
use crate::text::{hex_lower, to_hex_lower};

verus! {

/// The SHA-256 digest of a byte sequence.
pub uninterp spec fn sha256(data: Seq<u8>) -> Seq<u8>;

/// Hashes the bytes with `sha2::Sha256` (`new`, `update`, `finalize`).
/// Claimed: the digest is `sha256` of the bytes and, as SHA-256 defines,
/// 32 bytes long.
#[verifier::external_body]
fn sha256_bytes(data: &[u8]) -> (res: Vec<u8>)
    ensures
        res@ == sha256(data@),
        res@.len() == 32,
{
    let mut hasher = sha2::Sha256::new();
    hasher.update(data);
    hasher.finalize().to_vec()
}

/// The fingerprint of a text: the lower-case hexadecimal SHA-256 digest of
/// its UTF-8 encoding.
pub open spec fn fingerprint(text: Seq<char>) -> Seq<char> {
    hex_lower(sha256(vstd::utf8::encode_utf8(text)))
}

/// Computes the fingerprint of a text.
pub fn fingerprint_of(text: &str) -> (res: String)
    ensures
        res@ == fingerprint(text@),
        res@.len() == 64,
{
    let digest = sha256_bytes(text.as_bytes());
    let res = to_hex_lower(digest.as_slice());
    proof {
        lemma_hex_lower_len(digest@);
    }
    res
}

/// Two characters per byte.
pub proof fn lemma_hex_lower_len(bytes: Seq<u8>)
    ensures
        hex_lower(bytes).len() == 2 * bytes.len(),
    decreases bytes.len(),
{
    if bytes.len() > 0 {
        lemma_hex_lower_len(bytes.drop_last());
    }
}

} // verus!
