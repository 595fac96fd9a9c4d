use blogverse_auth::jwt::{create_token, validate_token, SESSION_TTL_SECS};

const SECRET: &str = "another-signing-secret";
const NOW: i64 = 1_700_000_000;

#[test]
fn issued_token_validates_to_the_subject() {
    let token = create_token(42, SECRET, NOW);
    let claims = validate_token(&token, SECRET, NOW + 1).expect("fresh token validates");
    assert_eq!(claims.sub, 42);
    assert_eq!(claims.iat, NOW);
    assert_eq!(claims.exp, NOW + SESSION_TTL_SECS);
}

#[test]
fn expired_token_is_rejected() {
    let token = create_token(42, SECRET, NOW);
    assert!(validate_token(&token, SECRET, NOW + SESSION_TTL_SECS).is_none());
    assert!(validate_token(&token, SECRET, NOW + SESSION_TTL_SECS + 100).is_none());
    // just before expiry it is still good
    assert!(validate_token(&token, SECRET, NOW + SESSION_TTL_SECS - 1).is_some());
}

#[test]
fn tampering_and_wrong_key_are_rejected() {
    let token = create_token(42, SECRET, NOW);
    assert!(validate_token(&token, "some-other-secret", NOW + 1).is_none());
    let mut tampered = token.clone();
    let last = tampered.pop().expect("nonempty");
    tampered.push(if last == 'A' { 'B' } else { 'A' });
    assert!(validate_token(&tampered, SECRET, NOW + 1).is_none());
    assert!(validate_token("not.a.token", SECRET, NOW + 1).is_none());
    assert!(validate_token("", SECRET, NOW + 1).is_none());
}

#[test]
fn token_embeds_no_plain_claims() {
    // three dot-separated base64 segments, not the bare numbers
    let token = create_token(7, SECRET, NOW);
    assert_eq!(token.matches('.').count(), 2);
    assert_ne!(token, SECRET);
}
