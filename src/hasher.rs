use vstd::prelude::*;
use sha2::Digest;

verus! {

/// The SHA-256 digest of a byte sequence, as 64 lower-case hexadecimal digits.
pub uninterp spec fn sha256_hex(data: Seq<u8>) -> Seq<char>;

/// Relies on sha2's `Sha256::digest`, written out through its `LowerHex`
/// formatting: two hexadecimal digits for each of the 32 bytes of the digest.
#[verifier::external_body]
fn sha256_hex_digest(data: &[u8]) -> (r: String)
    ensures
        r@ == sha256_hex(data@),
        r@.len() == 64,
{
    format!("{:x}", sha2::Sha256::digest(data))
}

/// The content digest of a file's bytes. Two files are content duplicates
/// when their digests are equal.
pub fn calculate_file_hash(contents: &[u8]) -> (r: String)
    ensures
        r@ == sha256_hex(contents@),
        r@.len() == 64,
{
    sha256_hex_digest(contents)
}

} // verus!
