//! Content digests: SHA-256 over the UTF-8 bytes of a text, written as
//! lowercase hexadecimal.

use sha2::Digest;
use vstd::prelude::*;
use vstd::utf8::encode_utf8;

verus! {

/// The SHA-256 digest of a byte string, as the `sha2` crate computes it.
pub uninterp spec fn sha256_of(data: Seq<u8>) -> Seq<u8>;

/// Computes the SHA-256 digest of `data`.
///
/// Trusted: the body is `sha2::Sha256::digest`, which hashes the given bytes
/// in one call. The contract gives that result its name and says that it
/// has the 32 bytes of that hash's output size.
#[verifier::external_body]
fn sha256(data: &[u8]) -> (r: Vec<u8>)
    ensures
        r@ == sha256_of(data@),
        r@.len() == 32,
{
    sha2::Sha256::digest(data).to_vec()
}

/// The lowercase hexadecimal digit for a value below sixteen.
pub open spec fn hex_digit(n: nat) -> char {
    if n < 10 {
        crate::text::digit_char(n)
    } else if n == 10 {
        'a'
    } else if n == 11 {
        'b'
    } else if n == 12 {
        'c'
    } else if n == 13 {
        'd'
    } else if n == 14 {
        'e'
    } else {
        'f'
    }
}

/// Two lowercase hexadecimal digits per byte, high half first.
pub open spec fn hex_lower(data: Seq<u8>) -> Seq<char>
    decreases data.len(),
{
    if data.len() == 0 {
        Seq::empty()
    } else {
        hex_lower(data.drop_last()).push(hex_digit((data.last() / 16) as nat)).push(
            hex_digit((data.last() % 16) as nat),
        )
    }
}

/// Writes bytes as lowercase hexadecimal.
///
/// Trusted: the body is `hex::encode`, which encodes each byte, in order, as
/// two digits taken from `0123456789abcdef`: first the high four bits, then
/// the low four.
#[verifier::external_body]
fn hex_encode(data: &Vec<u8>) -> (r: String)
    ensures
        r@ == hex_lower(data@),
{
    hex::encode(data)
}

/// The digest by which a file's content is recognised: the SHA-256 of its
/// UTF-8 bytes in lowercase hexadecimal, as `sha256sum` prints it.
pub open spec fn content_digest(content: Seq<char>) -> Seq<char> {
    hex_lower(sha256_of(encode_utf8(content)))
}

/// Hexadecimal notation has two digits for each byte.
pub proof fn lemma_hex_lower_len(data: Seq<u8>)
    ensures
        hex_lower(data).len() == 2 * data.len(),
    decreases data.len(),
{
    if data.len() > 0 {
        lemma_hex_lower_len(data.drop_last());
    }
}

/// Computes the digest of `content`: 64 hexadecimal digits.
pub fn content_hash(content: &str) -> (r: String)
    ensures
        r@ == content_digest(content@),
        r@.len() == 64,
{
    let digest = sha256(content.as_bytes());
    proof {
        lemma_hex_lower_len(digest@);
    }
    hex_encode(&digest)
}

} // verus!
