//! Plaintext tokens and their digests.
//!
//! A token is a random alphanumeric string handed to the client. Only its
//! SHA-256 digest is ever stored or compared.

use sha2::Digest;
use vstd::prelude::*;

verus! {

/// Number of characters in a generated plaintext token.
pub const TOKEN_LENGTH: usize = 32;

/// Number of bytes in a token digest.
pub const DIGEST_LENGTH: usize = 32;

/// Number of characters tokens are drawn from: `a-z`, `A-Z`, `0-9`.
pub const ALPHABET_SIZE: usize = 62;

/// The SHA-256 hash of a byte string.
pub uninterp spec fn sha256(data: Seq<u8>) -> Seq<u8>;

/// The digest under which a plaintext token is stored: the SHA-256 hash of
/// its UTF-8 encoding.
pub open spec fn token_digest(token: Seq<char>) -> Seq<u8> {
    sha256(vstd::utf8::encode_utf8(token))
}

/// Whether `c` is an ASCII letter or digit.
pub open spec fn is_alphanumeric(c: char) -> bool {
    ||| 'a' <= c <= 'z'
    ||| 'A' <= c <= 'Z'
    ||| '0' <= c <= '9'
}

/// Whether every character of `s` is an ASCII letter or digit.
pub open spec fn all_alphanumeric(s: Seq<char>) -> bool {
    forall|i: int| 0 <= i < s.len() ==> is_alphanumeric(#[trigger] s[i])
}

/// The `index`-th character of the token alphabet: lower-case letters, then
/// upper-case letters, then digits.
pub open spec fn alphabet_char(index: int) -> char {
    if index < 26 {
        ('a' as int + index) as char
    } else if index < 52 {
        ('A' as int + index - 26) as char
    } else {
        ('0' as int + index - 52) as char
    }
}

/// Hashes `data` with `sha2::Sha256::digest` and copies the output into a
/// vector. Trusted: the result is the SHA-256 hash of `data`, which is always
/// 32 bytes long.
#[verifier::external_body]
pub(crate) fn sha256_digest(data: &[u8]) -> (out: Vec<u8>)
    ensures
        out@ == sha256(data@),
        out@.len() == DIGEST_LENGTH,
{
    sha2::Sha256::digest(data).to_vec()
}

/// Draws an index with `rand::Rng::gen_range` from `rand::rngs::OsRng`, the
/// operating system's cryptographically secure generator. Trusted: the index
/// lies below `bound`. Nothing else is known of it, and two calls may differ.
/// `gen_range` panics on an empty range, which `bound > 0` rules out. The
/// generator itself gives up only where the operating system has no source
/// of random bytes.
#[verifier::external_body]
fn secure_index_below(bound: usize) -> (index: usize)
    requires
        bound > 0,
    ensures
        index < bound,
{
    rand::Rng::gen_range(&mut rand::rngs::OsRng, 0..bound)
}

/// `String::push` appends one character.
pub assume_specification[ String::push ](s: &mut String, ch: char)
    ensures
        final(s)@ == old(s)@.push(ch),
;

/// Looks up one character of the token alphabet.
pub fn alphabet_at(index: usize) -> (c: char)
    requires
        index < ALPHABET_SIZE,
    ensures
        c == alphabet_char(index as int),
        is_alphanumeric(c),
{
    if index < 26 {
        (97u8 + index as u8) as char
    } else if index < 52 {
        (65u8 + (index - 26) as u8) as char
    } else {
        (48u8 + (index - 52) as u8) as char
    }
}

/// Generates a string of `len` characters, each drawn independently from the
/// token alphabet with the operating system's secure random source.
pub fn generate_secure_alphanumeric_string(len: usize) -> (s: String)
    ensures
        s@.len() == len,
        all_alphanumeric(s@),
{
    let mut s = String::new();
    let mut n: usize = 0;
    while n < len
        invariant
            n <= len,
            s@.len() == n,
            all_alphanumeric(s@),
        decreases len - n,
    {
        let c = alphabet_at(secure_index_below(ALPHABET_SIZE));
        s.push(c);
        n = n + 1;
    }
    s
}

} // verus!
