//! Issuing a salted Argon2id credential for a plaintext, and checking a
//! plaintext against an issued credential.

use crate::kdf::{
    argon2_digest, argon2_hash, argon2_verify, error_text, generate_salt, is_b64_char,
    is_canonical_salt_text, is_digest_text, is_salt_text, password_fits, phc_prefix, phc_text,
};
use vstd::prelude::*;

verus! {

/// Why no credential could be issued or checked.
#[derive(Debug)]
pub enum HashingError {
    /// The hashing primitive refused its parameters, or the encoding failed.
    ParameterOrEncodingFailure(String),
}

impl HashingError {
    /// The readable message carried by the error.
    pub fn message(&self) -> (r: String)
        ensures
            match self {
                HashingError::ParameterOrEncodingFailure(m) => r@ == m@,
            },
    {
        match self {
            HashingError::ParameterOrEncodingFailure(m) => m.clone(),
        }
    }
}

/// `encoded` is the credential derived from `plaintext` under some valid salt.
pub open spec fn issued_for(encoded: Seq<char>, plaintext: Seq<char>) -> bool {
    exists|s: Seq<char>|
        #![trigger phc_text(s, argon2_digest(plaintext, s))]
        is_canonical_salt_text(s) && is_digest_text(argon2_digest(plaintext, s)) && encoded == phc_text(
            s,
            argon2_digest(plaintext, s),
        )
}

/// `encoded` was issued for some plaintext.
pub open spec fn is_issued(encoded: Seq<char>) -> bool {
    exists|p: Seq<char>| #[trigger] issued_for(encoded, p)
}

/// `password` derives, under the salt of `encoded`, the digest that `encoded` holds.
pub open spec fn accepts(encoded: Seq<char>, password: Seq<char>) -> bool {
    exists|p: Seq<char>, s: Seq<char>|
        #![trigger phc_text(s, argon2_digest(p, s))]
        is_canonical_salt_text(s) && is_digest_text(argon2_digest(p, s)) && encoded == phc_text(
            s,
            argon2_digest(p, s),
        ) && argon2_digest(password, s) == argon2_digest(p, s)
}

/// A character that can stand in an encoded credential.
pub open spec fn is_encoding_char(c: char) -> bool {
    is_b64_char(c) || c == '$' || c == '=' || c == ','
}

/// `needle` occurs in `hay` as a contiguous run.
pub open spec fn contains_text(hay: Seq<char>, needle: Seq<char>) -> bool {
    exists|k: int|
        0 <= k && k + needle.len() <= hay.len() && #[trigger] hay.subrange(k, k + needle.len())
            == needle
}

fn hashing_failure(e: argon2::password_hash::Error) -> (r: HashingError) {
    HashingError::ParameterOrEncodingFailure(error_text(&e))
}

/// Derives the credential for `plaintext` under the given Base64 salt.
pub fn issue_credential_with_salt(plaintext: &str, salt: &str) -> (r: Result<String, HashingError>)
    requires
        is_salt_text(salt@),
    ensures
        is_canonical_salt_text(salt@) && password_fits(plaintext@) ==> r is Ok,
        r is Ok ==> is_digest_text(argon2_digest(plaintext@, salt@)) && r->Ok_0@ == phc_text(
            salt@,
            argon2_digest(plaintext@, salt@),
        ),
{
    match argon2_hash(plaintext, salt) {
        Ok(encoded) => Ok(encoded),
        Err(e) => Err(hashing_failure(e)),
    }
}

/// Derives the credential for `plaintext` under a fresh random salt.
pub fn issue_credential(plaintext: &str) -> (r: Result<String, HashingError>)
    ensures
        password_fits(plaintext@) ==> r is Ok,
        r is Ok ==> issued_for(r->Ok_0@, plaintext@),
{
    let salt = generate_salt();
    let r = issue_credential_with_salt(plaintext, salt.as_str());
    proof {
        if r is Ok {
            assert(phc_text(salt@, argon2_digest(plaintext@, salt@)) == r->Ok_0@);
        }
    }
    r
}

/// Checks `plaintext` against a credential: `Ok(true)` when it derives the
/// stored digest under the stored salt, `Ok(false)` when it does not.
pub fn verify_credential(plaintext: &str, encoded: &str) -> (r: Result<bool, HashingError>)
    ensures
        password_fits(plaintext@) && is_issued(encoded@) ==> r is Ok && r->Ok_0 == accepts(
            encoded@,
            plaintext@,
        ),
{
    let r = argon2_verify(plaintext, encoded);
    proof {
        if password_fits(plaintext@) && is_issued(encoded@) {
            let p0 = choose|p: Seq<char>| #[trigger] issued_for(encoded@, p);
            let s0 = choose|s: Seq<char>|
                #![trigger phc_text(s, argon2_digest(p0, s))]
                is_canonical_salt_text(s) && is_digest_text(argon2_digest(p0, s)) && encoded@ == phc_text(
                    s,
                    argon2_digest(p0, s),
                );
            assert(r is Ok);
            if accepts(encoded@, plaintext@) {
                let (p1, s1) = choose|p: Seq<char>, s: Seq<char>|
                    #![trigger phc_text(s, argon2_digest(p, s))]
                    is_canonical_salt_text(s) && is_digest_text(argon2_digest(p, s)) && encoded@ == phc_text(
                        s,
                        argon2_digest(p, s),
                    ) && argon2_digest(plaintext@, s) == argon2_digest(p, s);
                assert(phc_text(s1, argon2_digest(p1, s1)) == encoded@);
            }
            if r->Ok_0 {
                assert(phc_text(s0, argon2_digest(p0, s0)) == encoded@);
            }
        }
    }
    match r {
        Ok(matched) => Ok(matched),
        Err(e) => Err(hashing_failure(e)),
    }
}

/// Issues the master-password credential; a failure comes back as its message.
pub fn setup_master_password(password: String) -> (r: Result<String, String>)
    ensures
        password_fits(password@) ==> r is Ok,
        r is Ok ==> issued_for(r->Ok_0@, password@),
{
    match issue_credential(password.as_str()) {
        Ok(encoded) => Ok(encoded),
        Err(e) => Err(e.message()),
    }
}

/// A credential issued for a plaintext is accepted for that same plaintext.
pub proof fn lemma_issued_credential_accepts_plaintext(encoded: Seq<char>, plaintext: Seq<char>)
    requires
        issued_for(encoded, plaintext),
    ensures
        is_issued(encoded),
        accepts(encoded, plaintext),
{
    let s = choose|s: Seq<char>|
        #![trigger phc_text(s, argon2_digest(plaintext, s))]
        is_canonical_salt_text(s) && is_digest_text(argon2_digest(plaintext, s)) && encoded == phc_text(
            s,
            argon2_digest(plaintext, s),
        );
    assert(phc_text(s, argon2_digest(plaintext, s)) == encoded);
}

/// The salt and the digest can be read back out of an encoded credential.
proof fn lemma_phc_text_parts(salt: Seq<char>, digest: Seq<char>)
    requires
        is_salt_text(salt),
    ensures
        phc_text(salt, digest).subrange(31, 53) == salt,
        phc_text(salt, digest).subrange(54, phc_text(salt, digest).len() as int) == digest,
{
    let e = phc_text(salt, digest);
    assert(phc_prefix().len() == 31);
    assert(e.subrange(31, 53) =~= salt);
    assert(e.subrange(54, e.len() as int) =~= digest);
}

/// Credentials issued under two different salts differ, whatever the plaintexts.
pub proof fn lemma_distinct_salts_distinct_credentials(
    p1: Seq<char>,
    s1: Seq<char>,
    p2: Seq<char>,
    s2: Seq<char>,
)
    requires
        is_salt_text(s1),
        is_salt_text(s2),
        s1 != s2,
    ensures
        phc_text(s1, argon2_digest(p1, s1)) != phc_text(s2, argon2_digest(p2, s2)),
{
    lemma_phc_text_parts(s1, argon2_digest(p1, s1));
    lemma_phc_text_parts(s2, argon2_digest(p2, s2));
}

/// Where Argon2 gives `other` a digest different from that of `plaintext`
/// under every salt, a credential issued for `plaintext` does not accept `other`.
pub proof fn lemma_issued_credential_rejects_other_plaintext(
    encoded: Seq<char>,
    plaintext: Seq<char>,
    other: Seq<char>,
)
    requires
        issued_for(encoded, plaintext),
        forall|s: Seq<char>|
            is_canonical_salt_text(s) ==> #[trigger] argon2_digest(other, s) != argon2_digest(
                plaintext,
                s,
            ),
    ensures
        !accepts(encoded, other),
{
    let s0 = choose|s: Seq<char>|
        #![trigger phc_text(s, argon2_digest(plaintext, s))]
        is_canonical_salt_text(s) && is_digest_text(argon2_digest(plaintext, s)) && encoded
            == phc_text(s, argon2_digest(plaintext, s));
    if accepts(encoded, other) {
        let (p, s) = choose|p: Seq<char>, s: Seq<char>|
            #![trigger phc_text(s, argon2_digest(p, s))]
            is_canonical_salt_text(s) && is_digest_text(argon2_digest(p, s)) && encoded
                == phc_text(s, argon2_digest(p, s)) && argon2_digest(other, s) == argon2_digest(
                p,
                s,
            );
        lemma_phc_text_parts(s0, argon2_digest(plaintext, s0));
        lemma_phc_text_parts(s, argon2_digest(p, s));
        assert(s == s0);
        assert(argon2_digest(p, s) == argon2_digest(plaintext, s0));
        assert(argon2_digest(other, s0) != argon2_digest(plaintext, s0));
    }
}

/// Every character of an issued credential belongs to the encoding's alphabet.
pub proof fn lemma_issued_credential_alphabet(encoded: Seq<char>, plaintext: Seq<char>)
    requires
        issued_for(encoded, plaintext),
    ensures
        forall|j: int| 0 <= j < encoded.len() ==> #[trigger] is_encoding_char(encoded[j]),
{
    let s = choose|s: Seq<char>|
        #![trigger phc_text(s, argon2_digest(plaintext, s))]
        is_canonical_salt_text(s) && is_digest_text(argon2_digest(plaintext, s)) && encoded == phc_text(
            s,
            argon2_digest(plaintext, s),
        );
    let d = argon2_digest(plaintext, s);
    let pre = phc_prefix();
    assert forall|j: int| 0 <= j < pre.len() implies is_encoding_char(#[trigger] pre[j]) by {
        assert(pre.len() == 31);
    }
    assert forall|j: int| 0 <= j < encoded.len() implies #[trigger] is_encoding_char(
        encoded[j],
    ) by {
        if j < 31 {
            assert(encoded[j] == pre[j]);
        } else if j < 53 {
            assert(encoded[j] == s[j - 31]);
            assert(is_b64_char(s[j - 31]));
        } else if j == 53 {
            assert(encoded[j] == '$');
        } else {
            assert(encoded[j] == d[j - 54]);
            assert(is_b64_char(d[j - 54]));
        }
    }
}

/// A plaintext that holds a character the encoding never uses does not occur
/// in a credential issued for it.
pub proof fn lemma_credential_omits_foreign_plaintext(
    encoded: Seq<char>,
    plaintext: Seq<char>,
    i: int,
)
    requires
        issued_for(encoded, plaintext),
        0 <= i < plaintext.len(),
        !is_encoding_char(plaintext[i]),
    ensures
        !contains_text(encoded, plaintext),
{
    lemma_issued_credential_alphabet(encoded, plaintext);
    if contains_text(encoded, plaintext) {
        let k = choose|k: int|
            0 <= k && k + plaintext.len() <= encoded.len() && #[trigger] encoded.subrange(
                k,
                k + plaintext.len(),
            ) == plaintext;
        assert(encoded.subrange(k, k + plaintext.len())[i] == encoded[k + i]);
        assert(is_encoding_char(encoded[k + i]));
    }
}

} // verus!
