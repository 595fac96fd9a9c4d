use blogverse_auth::crypto::{generate_secure_token, hash_password, verify_password, TOKEN_LEN};

#[test]
fn hash_verifies_only_the_hashed_password() {
    let digest = hash_password("password123").expect("hashing succeeds");
    assert!(verify_password(&digest, "password123"));
    assert!(!verify_password(&digest, "password124"));
    assert!(!verify_password(&digest, ""));
    assert!(!verify_password(&digest, "password123 "));
}

#[test]
fn digest_is_not_the_plaintext() {
    let digest = hash_password("password123").expect("hashing succeeds");
    assert_ne!(digest, "password123");
    assert!(digest.starts_with('$'));
    // a fresh salt each call: two digests of one password differ, yet both verify
    let digest2 = hash_password("password123").expect("hashing succeeds");
    assert_ne!(digest, digest2);
    assert!(verify_password(&digest2, "password123"));
}

#[test]
fn garbage_digest_fails_closed() {
    assert!(!verify_password("not a digest", "password123"));
    assert!(!verify_password("", "password123"));
}

#[test]
fn generated_tokens_are_long_random_and_alphanumeric() {
    let t1 = generate_secure_token();
    let t2 = generate_secure_token();
    assert_eq!(t1.len(), TOKEN_LEN);
    assert_eq!(t2.len(), TOKEN_LEN);
    assert!(t1.chars().all(|c| c.is_ascii_alphanumeric()));
    assert!(t2.chars().all(|c| c.is_ascii_alphanumeric()));
    assert_ne!(t1, t2);
}
