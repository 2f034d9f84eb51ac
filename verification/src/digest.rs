//! Content hashes.
//!
//! A branding asset is stored under a name derived from its bytes, so that
//! the same content always lands on the same file. The digest is SHA-256,
//! written as lowercase hexadecimal.

use sha2::Digest;
use vstd::prelude::*;

verus! {

/// The SHA-256 digest of `data`. The algorithm is the `sha2` crate's; nothing
/// here restates it.
pub uninterp spec fn sha256(data: Seq<u8>) -> Seq<u8>;

/// The lowercase hexadecimal digit of a value below sixteen.
pub open spec fn hex_digit(n: int) -> char {
    seq!['0', '1', '2', '3', '4', '5', '6', '7', '8', '9', 'a', 'b', 'c', 'd', 'e', 'f'][n]
}

/// Two lowercase hexadecimal digits for each byte, the high half first.
pub open spec fn hex_lower(data: Seq<u8>) -> Seq<char> {
    Seq::new(
        2 * data.len(),
        |i: int|
            if i % 2 == 0 {
                hex_digit(data[i / 2] as int / 16)
            } else {
                hex_digit(data[i / 2] as int % 16)
            },
    )
}

/// `sha2::Sha256::digest` hashes the whole input in one call. The result is
/// the SHA-256 digest of `data`, which has 32 bytes.
#[verifier::external_body]
fn sha256_digest(data: &[u8]) -> (out: Vec<u8>)
    ensures
        out@ == sha256(data@),
        out@.len() == 32,
{
    sha2::Sha256::digest(data).to_vec()
}

/// `hex::encode` writes each byte as two digits out of `0123456789abcdef`,
/// the high four bits first.
#[verifier::external_body]
fn hex_encode(data: &[u8]) -> (out: String)
    ensures
        out@ == hex_lower(data@),
{
    hex::encode(data)
}

/// The bytes in lowercase hexadecimal.
pub fn to_hex(data: &[u8]) -> (out: String)
    ensures
        out@ == hex_lower(data@),
        out@.len() == 2 * data@.len(),
{
    hex_encode(data)
}

/// The content hash of `bytes`: its SHA-256 digest in lowercase hexadecimal,
/// 64 characters. Equal contents have equal hashes.
pub fn content_hash(bytes: &[u8]) -> (digest: String)
    ensures
        digest@ == hex_lower(sha256(bytes@)),
        digest@.len() == 64,
{
    let raw = sha256_digest(bytes);
    to_hex(raw.as_slice())
}

} // verus!
