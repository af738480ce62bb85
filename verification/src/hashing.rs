//! Hashes of texts.
use crate::text::{self, hex_text, join2};
use vstd::prelude::*;
use vstd::string::*;

verus! {

/// The SHA-256 digest of bytes.
pub uninterp spec fn sha256_digest(data: Seq<u8>) -> Seq<u8>;

/// `sha2::Sha256::digest`: the 32 bytes of the SHA-256 digest, which depends on
/// the data alone.
#[verifier::external_body]
pub(crate) fn sha256(data: &[u8]) -> (r: Vec<u8>)
    ensures
        r@ == sha256_digest(data@),
        r@.len() == 32,
{
    <sha2::Sha256 as sha2::Digest>::digest(data).to_vec()
}

/// A digest, written as a hash.
pub open spec fn hash_of(digest: Seq<u8>) -> Seq<char> {
    "sha256:"@ + text::hex(digest)
}

/// The hash of a text: that of its UTF-8 bytes.
pub open spec fn content_hash(s: Seq<char>) -> Seq<char> {
    hash_of(sha256_digest(vstd::utf8::encode_utf8(s)))
}

/// Writes a digest as a hash: `sha256:` and two small hexadecimal digits for each
/// byte.
pub fn write_hash(digest: &Vec<u8>) -> (r: String)
    ensures
        r@ == hash_of(digest@),
{
    join2("sha256:", hex_text(digest).as_str())
}

/// The hash of a text.
pub fn hash_text(s: &str) -> (r: String)
    ensures
        r@ == content_hash(s@),
        r@.len() == "sha256:"@.len() + 64,
{
    let digest = sha256(s.as_bytes());
    proof {
        text::lemma_hex_len(digest@);
    }
    write_hash(&digest)
}

/// Two hashes are equal only where the digests are.
pub proof fn law_hashes_tell_digests_apart(a: Seq<u8>, b: Seq<u8>)
    requires
        hash_of(a) == hash_of(b),
    ensures
        a == b,
{
    let n = "sha256:"@.len() as int;
    assert(hash_of(a).subrange(n, hash_of(a).len() as int) =~= text::hex(a));
    assert(hash_of(b).subrange(n, hash_of(b).len() as int) =~= text::hex(b));
    text::lemma_hex_injective(a, b);
}

} // verus!
