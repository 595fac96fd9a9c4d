use vstd::prelude::*;

use argon2::{Argon2, PasswordHasher as _, PasswordVerifier as _};

verus! {

/// Whether the one-way digest `digest` matches the plaintext `plain`.
///
/// This names the outcome of argon2 password verification, which re-derives
/// the hash with the parameters and salt embedded in the digest and compares
/// in constant time: a pure function of the two strings alone.
pub uninterp spec fn password_verifies(digest: Seq<char>, plain: Seq<char>) -> bool;

/// A digest that is not a PHC string — one not beginning with `'$'` — fails
/// to parse, and parse failure is a verification failure: no password
/// whatsoever verifies against such a digest.
pub open spec fn unparseable_digest_rejected(digest: Seq<char>) -> bool {
    (digest.len() == 0 || digest.first() != '$')
        ==> forall|p: Seq<char>| !(#[trigger] password_verifies(digest, p))
}

/// What hashing promises of its digest: it verifies against the hashed
/// plaintext and against nothing else, and it is a PHC-format string (so it
/// begins with `'$'` and never echoes an ordinary plaintext back).
pub open spec fn good_hash_for(digest: Seq<char>, plain: Seq<char>) -> bool {
    &&& password_verifies(digest, plain)
    &&& forall|other: Seq<char>| other != plain ==> !password_verifies(digest, other)
    &&& digest.len() > 0
    &&& digest.first() == '$'
}

/// One-way salted hashing of a credential.
///
/// Relies on argon2's `PasswordHasher::hash_password`, which draws a fresh
/// random salt, applies Argon2id with the default parameters, and renders a
/// self-describing PHC string (`$argon2id$...` — always beginning with `'$'`).
/// Verifying that digest against the same plaintext succeeds; against any
/// other plaintext the re-derived hash differs and verification fails.
/// Returns `None` only on a catastrophic internal error.
#[verifier::external_body]
pub fn hash_password(password: &str) -> (r: Option<String>)
    ensures
        r matches Some(digest) ==> good_hash_for(digest@, password@),
{
    match Argon2::default().hash_password(password.as_bytes()) {
        Ok(h) => Some(h.to_string()),
        Err(_) => None,
    }
}

/// Constant-time verification of a plaintext against a stored digest.
///
/// Relies on argon2's `PasswordVerifier::verify_password`. A digest that
/// does not parse, or a mismatch, is a plain `false`: callers cannot tell
/// the two apart, which keeps failure reasons out of reach of an oracle.
/// The digest is parsed as a PHC string before the password is even
/// looked at, and a PHC string begins with `'$'`; a digest that does not
/// therefore never verifies, whatever the password.
#[verifier::external_body]
pub fn verify_password(hash: &str, password: &str) -> (r: bool)
    ensures
        r == password_verifies(hash@, password@),
        r ==> hash@.len() > 0 && hash@.first() == '$',
        r || unparseable_digest_rejected(hash@),
{
    Argon2::default().verify_password(password.as_bytes(), hash).is_ok()
}

/// The fixed length of generated opaque token strings.
pub const TOKEN_LEN: usize = 48;

/// The characters a generated token may contain: letters and digits.
pub open spec fn is_token_char(c: char) -> bool {
    ('A' <= c && c <= 'Z') || ('a' <= c && c <= 'z') || ('0' <= c && c <= '9')
}

/// Relies on `rand::random_range` over `0..bound`: a uniform draw from the
/// thread-local cryptographically secure generator, strictly below `bound`.
/// The range must be non-empty, as the call panics on an empty one.
#[verifier::external_body]
fn random_below(bound: usize) -> (r: usize)
    requires
        bound > 0,
    ensures
        r < bound,
{
    rand::random_range(0..bound)
}

/// Relies on `String::push`: appends one character.
#[verifier::external_body]
fn push_char(s: &mut String, c: char)
    ensures
        final(s)@ == old(s)@.push(c),
{
    s.push(c)
}

/// The alphabet the token generator draws from, indexed 0..62:
/// `'A'..='Z'`, then `'a'..='z'`, then `'0'..='9'`.
fn alphabet_char(idx: usize) -> (c: char)
    requires
        idx < 62,
    ensures
        is_token_char(c),
{
    if idx < 26 {
        (65 + idx as u8) as char
    } else if idx < 52 {
        (97 + (idx - 26) as u8) as char
    } else {
        (48 + (idx - 52) as u8) as char
    }
}

/// Produces an unguessable opaque token: `TOKEN_LEN` characters drawn
/// independently from a 62-character alphabet (≈6 bits each). The token
/// carries no structure and no metadata; it is a capability, not a claim.
pub fn generate_secure_token() -> (r: String)
    ensures
        r@.len() == TOKEN_LEN,
        forall|i: int| 0 <= i < r@.len() ==> is_token_char(#[trigger] r@[i]),
{
    let mut out = String::new();
    let mut i: usize = 0;
    while i < TOKEN_LEN
        invariant
            i <= TOKEN_LEN,
            out@.len() == i,
            forall|j: int| 0 <= j < out@.len() ==> is_token_char(#[trigger] out@[j]),
        decreases TOKEN_LEN - i,
    {
        let idx = random_below(62);
        let c = alphabet_char(idx);
        push_char(&mut out, c);
        i = i + 1;
    }
    out
}

} // verus!
