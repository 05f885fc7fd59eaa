//! The hash computer: derives the login password hash from the plaintext
//! password and the server-issued salt.
//!
//! The password and salt are concatenated (no separator), digested with
//! SHA-512, and rendered as lowercase hexadecimal.

use vstd::prelude::*;

use crate::text::{spec_hex_lower, to_hex_lower, lemma_hex_lower_len};

verus! {

/// The SHA-512 digest of the UTF-8 encoding of a character sequence.
/// The digest itself is left unspecified; it is a fixed function of the
/// text alone, which is all the library's contracts rely on.
pub uninterp spec fn sha512_of(text: Seq<char>) -> Seq<u8>;

/// Relies on `sha2::Sha512` (`Digest::{new, update, finalize}`): the
/// digest is 64 bytes long and depends only on the byte stream fed in —
/// here the UTF-8 of `password` followed by the UTF-8 of `salt`, which
/// is the UTF-8 of their concatenation.
#[verifier::external_body]
fn sha512_utf8(password: &str, salt: &str) -> (r: Vec<u8>)
    ensures
        r@ == sha512_of(password@ + salt@),
        r@.len() == 64,
{
    let mut hasher = <sha2::Sha512 as sha2::Digest>::new();
    sha2::Digest::update(&mut hasher, password.as_bytes());
    sha2::Digest::update(&mut hasher, salt.as_bytes());
    sha2::Digest::finalize(hasher).to_vec()
}

/// The login password hash: lowercase hex of the SHA-512 digest of
/// password and salt concatenated.
pub open spec fn spec_password_hash(password: Seq<char>, salt: Seq<char>) -> Seq<char> {
    spec_hex_lower(sha512_of(password + salt))
}

/// Derives the login password hash from a plaintext password and a
/// server-issued salt. Deterministic: the result is a fixed function of
/// the two inputs, and is always exactly 128 hex characters.
pub fn compute_hash(password: &str, salt: &str) -> (r: String)
    ensures
        r@ == spec_password_hash(password@, salt@),
        r@.len() == 128,
{
    let digest = sha512_utf8(password, salt);
    proof {
        lemma_hex_lower_len(digest@);
    }
    to_hex_lower(&digest)
}

/// The hash computer is deterministic: the same password and salt
/// always yield the same hex digest.
pub proof fn lemma_password_hash_deterministic(
    p1: Seq<char>,
    s1: Seq<char>,
    p2: Seq<char>,
    s2: Seq<char>,
)
    requires
        p1 == p2,
        s1 == s2,
    ensures
        spec_password_hash(p1, s1) == spec_password_hash(p2, s2),
{
}

/// The password and salt enter the digest only through their
/// concatenation: any two splits of the same combined text hash alike.
pub proof fn lemma_password_hash_concatenation(
    p1: Seq<char>,
    s1: Seq<char>,
    p2: Seq<char>,
    s2: Seq<char>,
)
    requires
        p1 + s1 == p2 + s2,
    ensures
        spec_password_hash(p1, s1) == spec_password_hash(p2, s2),
{
}

/// The JSON body submitted on the credential POST:
/// `{"password":"<hash>"}`.
pub open spec fn spec_password_body(hash: Seq<char>) -> Seq<char> {
    "{\"password\":\""@ + hash + "\"}"@
}

/// Builds the JSON body for the credential POST.
pub fn password_body(hash: &str) -> (r: String)
    ensures
        r@ == spec_password_body(hash@),
{
    let mut r = String::from_str("{\"password\":\"");
    r.append(hash);
    r.append("\"}");
    r
}

} // verus!
