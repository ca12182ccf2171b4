//! Cryptographic fingerprints of a file: MD5, SHA-1, SHA-256 and SHA-512,
//! as lower-case hexadecimal.

use vstd::prelude::*;
use crate::types::Hashes;

verus! {

/// The MD5 digest of the bytes.
pub uninterp spec fn md5_of(data: Seq<u8>) -> Seq<u8>;
/// The SHA-1 digest of the bytes.
pub uninterp spec fn sha1_of(data: Seq<u8>) -> Seq<u8>;
/// The SHA-256 digest of the bytes.
pub uninterp spec fn sha256_of(data: Seq<u8>) -> Seq<u8>;
/// The SHA-512 digest of the bytes.
pub uninterp spec fn sha512_of(data: Seq<u8>) -> Seq<u8>;

/// Calls `Digest::digest` of `md5::Md5` (crate md-5): the 16-byte digest.
#[verifier::external_body]
fn md5_digest(data: &[u8]) -> (r: Vec<u8>)
    ensures
        r@ == md5_of(data@),
        r@.len() == 16,
{
    <md5::Md5 as md5::Digest>::digest(data).to_vec()
}

/// Calls `Digest::digest` of `sha1::Sha1`: the 20-byte digest.
#[verifier::external_body]
fn sha1_digest(data: &[u8]) -> (r: Vec<u8>)
    ensures
        r@ == sha1_of(data@),
        r@.len() == 20,
{
    <sha1::Sha1 as sha1::Digest>::digest(data).to_vec()
}

/// Calls `Digest::digest` of `sha2::Sha256`: the 32-byte digest.
#[verifier::external_body]
fn sha256_digest(data: &[u8]) -> (r: Vec<u8>)
    ensures
        r@ == sha256_of(data@),
        r@.len() == 32,
{
    <sha2::Sha256 as sha2::Digest>::digest(data).to_vec()
}

/// Calls `Digest::digest` of `sha2::Sha512`: the 64-byte digest.
#[verifier::external_body]
fn sha512_digest(data: &[u8]) -> (r: Vec<u8>)
    ensures
        r@ == sha512_of(data@),
        r@.len() == 64,
{
    <sha2::Sha512 as sha2::Digest>::digest(data).to_vec()
}

/// Lower-case hexadecimal digit.
pub open spec fn hex_lower_digit(d: nat) -> char {
    if d < 10 { ((d + 48) as u8) as char } else { ((d + 87) as u8) as char }
}

/// The bytes as lower-case hexadecimal, two digits per byte, high nibble
/// first.
pub open spec fn hex_lower(bytes: Seq<u8>) -> Seq<char>
    decreases bytes.len(),
{
    if bytes.len() == 0 {
        seq![]
    } else {
        hex_lower(bytes.drop_last()) + seq![hex_lower_digit((bytes.last() / 16) as nat),
            hex_lower_digit((bytes.last() % 16) as nat)]
    }
}

/// Calls `hex::encode`: two lower-case hexadecimal digits per byte, in order.
#[verifier::external_body]
fn hex_encode(bytes: &[u8]) -> (r: String)
    ensures
        r@ == hex_lower(bytes@),
{
    hex::encode(bytes)
}

/// The length of the hexadecimal form is twice the number of bytes.
pub proof fn hex_lower_len(bytes: Seq<u8>)
    ensures
        hex_lower(bytes).len() == 2 * bytes.len(),
    decreases bytes.len(),
{
    if bytes.len() > 0 {
        hex_lower_len(bytes.drop_last());
    }
}

/// The four digests of the data in lower-case hexadecimal.
pub fn compute(data: &[u8]) -> (h: Hashes)
    ensures
        h.md5@ == hex_lower(md5_of(data@)),
        h.sha1@ == hex_lower(sha1_of(data@)),
        h.sha256@ == hex_lower(sha256_of(data@)),
        h.sha512@ == hex_lower(sha512_of(data@)),
        h.md5@.len() == 32,
        h.sha1@.len() == 40,
        h.sha256@.len() == 64,
        h.sha512@.len() == 128,
{
    let md5 = md5_digest(data);
    let sha1 = sha1_digest(data);
    let sha256 = sha256_digest(data);
    let sha512 = sha512_digest(data);
    proof {
        hex_lower_len(md5@);
        hex_lower_len(sha1@);
        hex_lower_len(sha256@);
        hex_lower_len(sha512@);
    }
    Hashes {
        md5: hex_encode(md5.as_slice()),
        sha1: hex_encode(sha1.as_slice()),
        sha256: hex_encode(sha256.as_slice()),
        sha512: hex_encode(sha512.as_slice()),
    }
}

} // verus!
