//! The password hashing engine: a salted one-way verifier.

use vstd::prelude::*;

use sha3::Digest;
use sha3::Sha3_512;

verus! {

/// The SHA3-512 digest of a character sequence (hashed as its UTF-8 bytes).
/// The digest is far too involved to write out; what matters to the vault is
/// that it is a function of the input alone, which this name expresses.
pub uninterp spec fn sha3_512_of(s: Seq<char>) -> Seq<u8>;

/// Relies on sha3's `Sha3_512` through the `Digest` trait: the digest is
/// 64 bytes long and depends on the hashed text alone; the hashed text is
/// the raw password followed by the salt.
#[verifier::external_body]
fn sha3_512_digest(raw_str: &String, salt: &String) -> (r: Vec<u8>)
    ensures
        r@ == sha3_512_of(raw_str@ + salt@),
        r@.len() == 64,
{
    let mut hasher = Sha3_512::new();
    hasher.update(format!("{}{}", raw_str, salt));
    hasher.finalize().to_vec()
}

/// Derives the one-way verifier stored for a user: the SHA3-512 digest of
/// the raw password concatenated with the salt.  The same pair always
/// yields the same verifier; no hash is ever computed without a salt.
pub fn sha3_512_hashcode(raw_str: &String, salt: &String) -> (r: Vec<u8>)
    ensures
        r@ == sha3_512_of(raw_str@ + salt@),
        r@.len() == 64,
{
    sha3_512_digest(raw_str, salt)
}

} // verus!
