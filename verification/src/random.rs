//! Random material: printable salts and raw nonce bytes, drawn from a
//! cryptographically secure source.

use vstd::prelude::*;

use rand::seq::SliceRandom;
use rand::thread_rng;
use rand::Rng;

verus! {

/// The characters the generator draws from: the printable ASCII range,
/// space through tilde.
pub open spec fn printable_ascii(c: char) -> bool {
    ' ' <= c <= '~'
}

/// Every character of the string lies in the printable ASCII range.
pub open spec fn all_printable_ascii(s: Seq<char>) -> bool {
    forall|i: int| 0 <= i < s.len() ==> printable_ascii(#[trigger] s[i])
}

/// Relies on rand's `thread_rng` and `SliceRandom::choose_multiple` over a
/// fixed 95-character printable-ASCII alphabet: the call draws exactly
/// `len` characters (without repetition, so `len` must stay below the
/// alphabet's size) from a cryptographically secure source.  Nothing
/// further can be said of a random result.
#[verifier::external_body]
fn random_printable_chars(len: usize) -> (r: String)
    requires
        len <= 94,
    ensures
        r@.len() == len,
        all_printable_ascii(r@),
{
    let alphabet = r#"ABCDEFGHIJKLMNOPQRSTUVWXYZabcdefghijklmnopqrstuvwxyz1234567890!@#$%~+=_-`\|^&*()[]{}:'"<>?,./; "#;
    let mut rng = thread_rng();
    String::from_utf8(alphabet.as_bytes().choose_multiple(&mut rng, len).cloned().collect())
        .unwrap()
}

/// Draws a fresh random string of exactly `len` printable ASCII characters;
/// used for per-user salts (and, reinterpreted as bytes, for nonces).
pub fn create_ascii_str(len: usize) -> (r: String)
    requires
        len <= 94,
    ensures
        r@.len() == len,
        all_printable_ascii(r@),
{
    random_printable_chars(len)
}

/// Relies on rand's `thread_rng` and `Rng::fill`: the buffer is filled with
/// exactly `len` bytes drawn uniformly over the whole byte range by a
/// cryptographically secure source.  Nothing further can be said of a
/// random result.
#[verifier::external_body]
pub(crate) fn random_bytes(len: usize) -> (r: Vec<u8>)
    ensures
        r@.len() == len,
{
    let mut buf = vec![0u8; len];
    thread_rng().fill(buf.as_mut_slice());
    buf
}

} // verus!
