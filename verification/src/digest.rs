//! SHA-256 content digests in lowercase hexadecimal.
use vstd::prelude::*;
use sha2::Digest;

verus! {

/// The SHA-256 digest (32 bytes) of a byte sequence, as the `sha2` crate computes it.
pub uninterp spec fn sha256_digest(data: Seq<u8>) -> Seq<u8>;

/// The lowercase hexadecimal digit for a nibble `0..16`.
pub open spec fn hex_digit_lower(nibble: int) -> char {
    if nibble < 10 {
        (nibble + 48) as char
    } else {
        (nibble + 87) as char
    }
}

/// Lowercase hexadecimal text of a byte sequence: two digits per byte, high nibble first.
pub open spec fn hex_lower(data: Seq<u8>) -> Seq<char>
    decreases data.len(),
{
    if data.len() == 0 {
        Seq::empty()
    } else {
        hex_lower(data.drop_last()).push(hex_digit_lower(data.last() as int / 16)).push(
            hex_digit_lower(data.last() as int % 16),
        )
    }
}

/// Calls `sha2::Sha256::digest`. The contract names the result and states the documented
/// 32-byte output length; nothing else about SHA-256 is claimed.
#[verifier::external_body]
fn sha256(data: &[u8]) -> (digest: Vec<u8>)
    ensures
        digest@ == sha256_digest(data@),
        digest@.len() == 32,
{
    sha2::Sha256::digest(data).to_vec()
}

/// Calls `hex::encode`, which the crate documents as lowercase hexadecimal, two digits per byte.
#[verifier::external_body]
fn hex_encode(data: &[u8]) -> (text: String)
    ensures
        text@ == hex_lower(data@),
{
    hex::encode(data)
}

/// Returns a lowercase SHA-256 digest for bytes.
pub fn sha256_hex(bytes: &[u8]) -> (text: String)
    ensures
        text@ == hex_lower(sha256_digest(bytes@)),
{
    let digest = sha256(bytes);
    hex_encode(digest.as_slice())
}

} // verus!
