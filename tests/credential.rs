use open_vault::credential::{
    issue_credential, issue_credential_with_salt, setup_master_password, verify_credential,
    HashingError,
};

const SALT: &str = "c29tZXNhbHRzb21lc2FsdA";
const PREFIX: &str = "$argon2id$v=19$m=19456,t=2,p=1$";

fn is_b64(s: &str) -> bool {
    s.chars().all(|c| c.is_ascii_alphanumeric() || c == '+' || c == '/')
}

#[test]
fn same_password_twice_gives_different_credentials() {
    let a = setup_master_password("correct-horse".to_string()).unwrap();
    let b = setup_master_password("correct-horse".to_string()).unwrap();
    assert_ne!(a, b);
}

#[test]
fn issued_credential_verifies_its_plaintext() {
    let encoded = issue_credential("correct-horse").unwrap();
    assert_eq!(verify_credential("correct-horse", &encoded).unwrap(), true);
}

#[test]
fn issued_credential_rejects_other_plaintext() {
    let encoded = issue_credential("correct-horse").unwrap();
    assert_eq!(verify_credential("correct-horsf", &encoded).unwrap(), false);
    assert_eq!(verify_credential("", &encoded).unwrap(), false);
}

#[test]
fn credential_does_not_hold_plaintext() {
    for p in ["hunter2", "correct-horse", "p@ss word!", "p\u{e4}sswort"] {
        let encoded = issue_credential(p).unwrap();
        assert!(!encoded.contains(p), "{} in {}", p, encoded);
    }
}

#[test]
fn plaintext_equal_to_tag_text_is_still_hashed() {
    for p in ["argon2id", "$v=19$"] {
        let encoded = issue_credential(p).unwrap();
        assert!(encoded.contains(p));
        assert_eq!(verify_credential(p, &encoded).unwrap(), true);
        assert_eq!(verify_credential("hunter2", &encoded).unwrap(), false);
    }
}

#[test]
fn hunter2_credential_layout() {
    let encoded = setup_master_password("hunter2".to_string()).unwrap();
    assert!(encoded.starts_with("$argon2"));
    let sections: Vec<&str> = encoded.split('$').filter(|s| !s.is_empty()).collect();
    assert!(sections.len() >= 3);
    assert_eq!(sections.len(), 5);
    assert_eq!(sections[0], "argon2id");
    assert_eq!(sections[1], "v=19");
    assert_eq!(sections[2], "m=19456,t=2,p=1");
    assert_eq!(sections[3].len(), 22);
    assert!(is_b64(sections[3]));
    assert_eq!(sections[4].len(), 43);
    assert!(is_b64(sections[4]));
}

#[test]
fn empty_password_is_accepted() {
    let encoded = setup_master_password(String::new()).unwrap();
    assert!(encoded.starts_with(PREFIX));
    assert_eq!(verify_credential("", &encoded).unwrap(), true);
    assert_eq!(verify_credential("x", &encoded).unwrap(), false);
}

#[test]
fn fixed_salt_gives_fixed_credential() {
    let a = issue_credential_with_salt("hunter2", SALT).unwrap();
    let b = issue_credential_with_salt("hunter2", SALT).unwrap();
    assert_eq!(a, b);
    assert_ne!(a, "hunter2");
    assert!(a.starts_with(&format!("{}{}$", PREFIX, SALT)));
    assert_eq!(a.len(), PREFIX.len() + 22 + 1 + 43);
    assert_eq!(verify_credential("hunter2", &a).unwrap(), true);
}

#[test]
fn fixed_salt_differs_by_plaintext() {
    let a = issue_credential_with_salt("hunter2", SALT).unwrap();
    let b = issue_credential_with_salt("hunter3", SALT).unwrap();
    assert_ne!(a, b);
    assert_eq!(a[..PREFIX.len() + 23], b[..PREFIX.len() + 23]);
}

#[test]
fn malformed_credential_is_an_error() {
    let r = verify_credential("hunter2", "not a credential");
    match r {
        Err(HashingError::ParameterOrEncodingFailure(m)) => assert!(!m.is_empty()),
        Ok(_) => panic!("malformed credential accepted"),
    }
}

#[test]
fn hashing_error_message() {
    let e = HashingError::ParameterOrEncodingFailure("bad params".to_string());
    assert_eq!(e.message(), "bad params");
}

#[test]
fn generated_salt_is_canonical() {
    let encoded = issue_credential("hunter2").unwrap();
    let salt = encoded.split('$').nth(4).unwrap();
    assert_eq!(salt.len(), 22);
    assert!(matches!(salt.chars().last(), Some('A' | 'Q' | 'g' | 'w')));
}

#[test]
fn different_salts_give_different_credentials() {
    let a = issue_credential_with_salt("correct-horse", SALT).unwrap();
    let b = issue_credential_with_salt("correct-horse", "b3RoZXJzYWx0b3RoZXJzYQ").unwrap();
    assert_ne!(a, b);
    assert_eq!(verify_credential("correct-horse", &b).unwrap(), true);
}

#[test]
fn non_canonical_salt_fails_with_message() {
    let r = issue_credential_with_salt("hunter2", "c29tZXNhbHRzb21lc2FsdB");
    match r {
        Err(e) => assert!(!e.message().is_empty()),
        Ok(h) => panic!("non-canonical salt hashed: {}", h),
    }
}
