use blogverse_auth::error::AppError;
use blogverse_auth::handler::{forgot_password, get_user_by_id, login, verify_email};
use blogverse_auth::model::{
    ForgotPasswordRequest, LoginUser, TokenType, VerifyEmailRequest,
};
use blogverse_auth::store::AuthDb;

const NOW: i64 = 1_700_000_000;

#[test]
fn empty_store_rejects_everything_quietly() {
    let mut db = AuthDb::new();
    assert!(db.users.is_empty());
    assert!(db.tokens.is_empty());

    let r = login(
        &db,
        &LoginUser { email: "a@x.com".to_string(), password: "password123".to_string() },
        "secret",
        NOW,
    );
    assert_eq!(r.err(), Some(AppError::Unauthorized));

    let r = verify_email(&mut db, &VerifyEmailRequest { token: "t".to_string() }, NOW);
    assert!(matches!(r, Err(AppError::BadRequest(_))));

    let r = forgot_password(&mut db, &ForgotPasswordRequest { email: "a@x.com".to_string() }, NOW)
        .expect("still the generic success");
    assert_eq!(
        r.0.message.as_deref(),
        Some("If an account exists, a password reset email has been sent.")
    );
    assert!(r.1.is_none());

    let r = get_user_by_id(&db, 1);
    assert!(matches!(r, Err(AppError::NotFound(_))));
}

#[test]
fn find_live_collapses_absent_used_and_expired() {
    let mut db = AuthDb::new();
    let user = db.create_user(
        "dora".to_string(),
        "d@x.com".to_string(),
        "$argon2id$placeholder".to_string(),
        NOW,
    );
    let fresh = "A".repeat(48);
    let stale = "B".repeat(48);
    db.insert_token(user, fresh.clone(), TokenType::PasswordReset, NOW + 3600, NOW)
        .expect("fresh token stored");

    // live while unexpired and unconsumed
    assert!(db.find_live(&fresh, TokenType::PasswordReset, NOW + 10).is_some());
    // wrong type: not a match
    assert!(db.find_live(&fresh, TokenType::EmailVerification, NOW + 10).is_none());
    // absent string
    assert!(db.find_live(&stale, TokenType::PasswordReset, NOW + 10).is_none());
    // expired: the boundary instant is already dead
    assert!(db.find_live(&fresh, TokenType::PasswordReset, NOW + 3600).is_none());

    // consumed: dead even though its expiry has not passed
    let idx = db
        .find_live(&fresh, TokenType::PasswordReset, NOW + 10)
        .expect("still live before consumption");
    db.consume(idx, NOW + 20);
    assert!(db.find_live(&fresh, TokenType::PasswordReset, NOW + 30).is_none());
}

#[test]
fn invalidation_spares_other_pairs() {
    let mut db = AuthDb::new();
    let u1 = db.create_user(
        "erin".to_string(),
        "e@x.com".to_string(),
        "$argon2id$placeholder".to_string(),
        NOW,
    );
    let u2 = db.create_user(
        "finn".to_string(),
        "f@x.com".to_string(),
        "$argon2id$placeholder2".to_string(),
        NOW,
    );
    let t_reset = "C".repeat(48);
    let t_verify = "D".repeat(48);
    let t_other = "E".repeat(48);
    db.insert_token(u1, t_reset.clone(), TokenType::PasswordReset, NOW + 3600, NOW)
        .expect("reset token");
    db.insert_token(u1, t_verify.clone(), TokenType::EmailVerification, NOW + 86400, NOW)
        .expect("verification token");
    db.insert_token(u2, t_other.clone(), TokenType::PasswordReset, NOW + 3600, NOW)
        .expect("other user's token");

    db.invalidate_tokens(u1, TokenType::PasswordReset, NOW + 5);

    // only the (u1, reset) pair was consumed
    assert!(db.find_live(&t_reset, TokenType::PasswordReset, NOW + 10).is_none());
    assert!(db.find_live(&t_verify, TokenType::EmailVerification, NOW + 10).is_some());
    assert!(db.find_live(&t_other, TokenType::PasswordReset, NOW + 10).is_some());
}

#[test]
fn duplicate_token_string_is_refused() {
    let mut db = AuthDb::new();
    let user = db.create_user(
        "gail".to_string(),
        "g@x.com".to_string(),
        "$argon2id$placeholder".to_string(),
        NOW,
    );
    let s = "F".repeat(48);
    db.insert_token(user, s.clone(), TokenType::PasswordReset, NOW + 3600, NOW)
        .expect("first insertion");
    // the stored duplicate must first be invalidated, or the unique
    // constraint refuses the insertion
    db.invalidate_tokens(user, TokenType::PasswordReset, NOW + 1);
    assert!(db
        .insert_token(user, s, TokenType::PasswordReset, NOW + 3600, NOW + 1)
        .is_err());
}
