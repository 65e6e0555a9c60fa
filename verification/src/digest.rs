//! Content digests: the SHA-256 of a file's bytes, written as lower-case hex.

use sha2::{Digest, Sha256};
use vstd::prelude::*;

verus! {

/// The SHA-256 hash of `data`, as the `sha2` crate computes it.
pub uninterp spec fn sha256_digest(data: Seq<u8>) -> Seq<u8>;

/// The sixteen lower-case hexadecimal digits, in order.
pub open spec fn hex_digits() -> Seq<char> {
    seq!['0', '1', '2', '3', '4', '5', '6', '7', '8', '9', 'a', 'b', 'c', 'd', 'e', 'f']
}

/// `bytes` in lower-case hexadecimal: two digits for each byte, the high half
/// first.
pub open spec fn hex_lower(bytes: Seq<u8>) -> Seq<char> {
    Seq::new(
        2 * bytes.len(),
        |i: int|
            if i % 2 == 0 {
                hex_digits()[bytes[i / 2] as int / 16]
            } else {
                hex_digits()[bytes[i / 2] as int % 16]
            },
    )
}

/// The content digest of a file that holds `data`.
pub open spec fn content_digest(data: Seq<u8>) -> Seq<char> {
    hex_lower(sha256_digest(data))
}

/// The bytes of an optional buffer.
pub open spec fn bytes_view(content: Option<Vec<u8>>) -> Option<Seq<u8>> {
    match content {
        Some(bytes) => Some(bytes@),
        None => None,
    }
}

/// Calls `sha2::Sha256::digest`. Trusted: the result is the SHA-256 hash of
/// `data`, which always has 32 bytes.
#[verifier::external_body]
fn sha256(data: &[u8]) -> (out: Vec<u8>)
    ensures
        out@ == sha256_digest(data@),
        out@.len() == 32,
{
    Sha256::digest(data).to_vec()
}

/// Calls `hex::encode`. Trusted: the result holds, for each byte in order, the
/// lower-case hex digit of its high four bits and then that of its low four
/// bits.
#[verifier::external_body]
fn hex_encode(bytes: &Vec<u8>) -> (s: String)
    ensures
        s@ == hex_lower(bytes@),
{
    hex::encode(bytes)
}

/// The content digest of `data`: 64 lower-case hex digits.
pub fn hash_bytes(data: &[u8]) -> (s: String)
    ensures
        s@ == content_digest(data@),
        s@.len() == 64,
{
    let raw = sha256(data);
    hex_encode(&raw)
}

/// The digest of a file, given what reading it gave: `None` where the file
/// could not be read.
pub fn hash_file(content: &Option<Vec<u8>>) -> (r: Option<String>)
    ensures
        r is Some <==> content is Some,
        r matches Some(s) ==> s@ == content_digest(content->0@),
        r matches Some(s) ==> s@.len() == 64,
{
    match content {
        Some(bytes) => Some(hash_bytes(bytes.as_slice())),
        None => None,
    }
}

} // verus!
