//! Content addressing: SHA-256 digests rendered as URL-safe, unpadded
//! base64. A blob is named by the encoded digest of its bytes, and the
//! transcript's chain hashes use the same encoding.

use vstd::prelude::*;
use vstd::utf8::encode_utf8;

verus! {

/// The SHA-256 digest of a byte sequence.
pub uninterp spec fn sha256_of(bytes: Seq<u8>) -> Seq<u8>;

/// The URL-safe, unpadded base64 rendering of a byte sequence.
pub uninterp spec fn b64url_of(bytes: Seq<u8>) -> Seq<char>;

/// Relies on sha2's `Sha256` (through the `Digest` trait): the digest is a
/// function of the input bytes alone, and is 32 bytes long.
#[verifier::external_body]
fn sha256_digest(data: &[u8]) -> (r: Vec<u8>)
    ensures
        r@ == sha256_of(data@),
        r@.len() == 32,
{
    <sha2::Sha256 as sha2::Digest>::digest(data).to_vec()
}

/// Relies on base64's `URL_SAFE_NO_PAD` engine: the encoding is a function
/// of the input bytes alone, over the alphabet `[A-Za-z0-9_-]` without
/// padding, so 32 input bytes yield 43 characters.
#[verifier::external_body]
fn b64url_encode(data: &[u8]) -> (r: String)
    ensures
        r@ == b64url_of(data@),
        r@.len() == (4 * data@.len() + 2) / 3,
{
    base64::Engine::encode(&base64::engine::general_purpose::URL_SAFE_NO_PAD, data)
}

/// The content-addressed name of a payload: encoded digest of its bytes.
pub open spec fn spec_blob_name(data: Seq<u8>) -> Seq<char> {
    b64url_of(sha256_of(data))
}

/// The chain-hash step: digest of a line of text (as UTF-8 bytes), encoded.
pub open spec fn spec_line_hash(s: Seq<char>) -> Seq<char> {
    b64url_of(sha256_of(encode_utf8(s)))
}

/// The blob name under which a payload is stored. Two identical payloads
/// collide onto the same name, wherever and whenever they are written.
pub fn blob_name(data: &[u8]) -> (r: String)
    ensures
        r@ == spec_blob_name(data@),
        r@.len() == 43,
{
    let d = sha256_digest(data);
    b64url_encode(d.as_slice())
}

/// The encoded digest of a transcript line.
pub fn line_hash(s: &str) -> (r: String)
    ensures
        r@ == spec_line_hash(s@),
        r@.len() == 43,
{
    let d = sha256_digest(s.as_bytes());
    b64url_encode(d.as_slice())
}

} // verus!
