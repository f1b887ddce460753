//! Calls into the `argon2` and `rand` crates, and the text model of what they return.

use argon2::password_hash::{PasswordHash, PasswordHasher, PasswordVerifier, Salt, SaltString};
use argon2::Argon2;
use rand::rngs::OsRng;
use vstd::prelude::*;

verus! {

#[verifier::external_type_specification]
#[verifier::external_body]
pub struct ExPasswordHashError(argon2::password_hash::Error);

/// A character of the unpadded standard Base64 alphabet.
pub open spec fn is_b64_char(c: char) -> bool {
    ('A' <= c && c <= 'Z') || ('a' <= c && c <= 'z') || ('0' <= c && c <= '9') || c == '+'
        || c == '/'
}

pub open spec fn is_b64_text(t: Seq<char>) -> bool {
    forall|i: int| 0 <= i < t.len() ==> #[trigger] is_b64_char(t[i])
}

/// A salt as it stands in a credential: sixteen random bytes in Base64.
pub open spec fn is_salt_text(t: Seq<char>) -> bool {
    t.len() == 22 && is_b64_text(t)
}

/// A salt text that is the canonical Base64 of its sixteen bytes: the last
/// character carries two bits, so its four low bits are zero.
pub open spec fn is_canonical_salt_text(t: Seq<char>) -> bool {
    is_salt_text(t) && (t[21] == 'A' || t[21] == 'Q' || t[21] == 'g' || t[21] == 'w')
}

/// A digest as it stands in a credential: thirty-two bytes in Base64.
pub open spec fn is_digest_text(t: Seq<char>) -> bool {
    t.len() == 43 && is_b64_text(t)
}

/// `$argon2id$v=19$m=19456,t=2,p=1$`: algorithm, version and the default
/// memory cost, time cost and parallelism, each section led by `$`.
pub open spec fn phc_prefix() -> Seq<char> {
    seq![
        '$', 'a', 'r', 'g', 'o', 'n', '2', 'i', 'd', '$', 'v', '=', '1', '9', '$', 'm', '=', '1',
        '9', '4', '5', '6', ',', 't', '=', '2', ',', 'p', '=', '1', '$',
    ]
}

/// The encoded credential for a salt and a digest.
pub open spec fn phc_text(salt: Seq<char>, digest: Seq<char>) -> Seq<char> {
    phc_prefix() + salt + seq!['$'] + digest
}

/// A password whose UTF-8 form surely fits the Argon2 limit of `u32::MAX` bytes.
pub open spec fn password_fits(p: Seq<char>) -> bool {
    p.len() <= 0x3fff_ffff
}

/// The Base64 digest that Argon2id with the default parameters derives from a
/// password under a salt (given in its Base64 form).
pub uninterp spec fn argon2_digest(password: Seq<char>, salt: Seq<char>) -> Seq<char>;

/// Relies on `SaltString::generate` with `OsRng`: sixteen bytes from the
/// operating system's secure generator, encoded as unpadded Base64.
#[verifier::external_body]
pub(crate) fn generate_salt() -> (r: String)
    ensures
        is_canonical_salt_text(r@),
{
    SaltString::generate(&mut OsRng).as_str().to_string()
}

/// Relies on `Salt::from_b64` and `Argon2::default().hash_password`, whose
/// `PasswordHash` prints as `$argon2id$v=19$m=19456,t=2,p=1$<salt>$<digest>`.
/// With the default parameters hashing fails only on a salt that does not
/// decode or a password over `u32::MAX` bytes.
#[verifier::external_body]
pub(crate) fn argon2_hash(password: &str, salt: &str) -> (r: Result<
    String,
    argon2::password_hash::Error,
>)
    requires
        is_salt_text(salt@),
    ensures
        is_canonical_salt_text(salt@) && password_fits(password@) ==> r is Ok,
        r is Ok ==> is_digest_text(argon2_digest(password@, salt@)) && r->Ok_0@ == phc_text(
            salt@,
            argon2_digest(password@, salt@),
        ),
{
    let salt = Salt::from_b64(salt)?;
    Argon2::default().hash_password(password.as_bytes(), salt).map(|h| h.to_string())
}

/// Relies on `PasswordHash::new` and `Argon2::verify_password`: a credential
/// of the form above is parsed, the digest of `password` is derived again with
/// its salt and parameters, and a mismatch is `Error::Password`.
#[verifier::external_body]
pub(crate) fn argon2_verify(password: &str, encoded: &str) -> (r: Result<
    bool,
    argon2::password_hash::Error,
>)
    ensures
        forall|p: Seq<char>, s: Seq<char>|
            #![trigger phc_text(s, argon2_digest(p, s))]
            is_canonical_salt_text(s) && is_digest_text(argon2_digest(p, s)) && password_fits(
                password@,
            )
                && encoded@ == phc_text(s, argon2_digest(p, s)) ==> r is Ok && r->Ok_0 == (
            argon2_digest(password@, s) == argon2_digest(p, s)),
{
    let parsed = PasswordHash::new(encoded)?;
    match Argon2::default().verify_password(password.as_bytes(), &parsed) {
        Ok(()) => Ok(true),
        Err(argon2::password_hash::Error::Password) => Ok(false),
        Err(e) => Err(e),
    }
}

/// Relies on the `Display` of `password_hash::Error` for a readable message.
#[verifier::external_body]
pub(crate) fn error_text(e: &argon2::password_hash::Error) -> String {
    e.to_string()
}

} // verus!
