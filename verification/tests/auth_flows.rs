use blogverse_auth::error::AppError;
use blogverse_auth::handler::{
    forgot_password, get_me, get_user_by_id, login, resend_verification, reset_password, signup,
    verify_email,
};
use blogverse_auth::jwt::validate_token;
use blogverse_auth::model::{
    EmailNotice, ForgotPasswordRequest, LoginUser, RegisterUser, ResendVerificationRequest,
    ResetPasswordRequest, TokenType, VerifyEmailRequest,
};
use blogverse_auth::store::AuthDb;

const SECRET: &str = "test-signing-secret";
const NOW: i64 = 1_700_000_000;

fn register(username: &str, email: &str, password: &str) -> RegisterUser {
    RegisterUser {
        username: username.to_string(),
        email: email.to_string(),
        password: password.to_string(),
    }
}

fn signup_alice(db: &mut AuthDb) -> (u64, String) {
    let out = signup(db, register("alice", "a@x.com", "password123"), NOW)
        .expect("signup should succeed");
    let user = out.0.response.data.as_ref().expect("created user returned");
    let token = match out.1 {
        EmailNotice::Verification { ref to, ref token } => {
            assert_eq!(to, "a@x.com");
            token.clone()
        }
        _ => panic!("signup must hand back a verification notice"),
    };
    (user.id, token)
}

#[test]
fn signup_creates_unverified_user() {
    let mut db = AuthDb::new();
    let (id, token) = signup_alice(&mut db);
    assert_eq!(db.users.len(), 1);
    let stored = &db.users[0];
    assert_eq!(stored.id, id);
    assert_eq!(stored.username, "alice");
    assert_eq!(stored.email, "a@x.com");
    assert!(!stored.email_verified);
    assert_eq!(stored.created_at, NOW);
    // the issued verification token: 24-hour expiry, unused
    assert_eq!(db.tokens.len(), 1);
    let t = &db.tokens[0];
    assert_eq!(t.user_id, id);
    assert_eq!(t.token, token);
    assert!(matches!(t.token_type, TokenType::EmailVerification));
    assert_eq!(t.expires_at, NOW + 86400);
    assert!(t.used_at.is_none());
}

#[test]
fn signup_duplicate_email_conflicts() {
    let mut db = AuthDb::new();
    signup_alice(&mut db);
    let r = signup(&mut db, register("bob", "a@x.com", "password456"), NOW);
    match r {
        Err(AppError::Conflict(m)) => assert_eq!(m, "Username or Email already exists"),
        other => panic!("expected a conflict, got {:?}", other.is_ok()),
    }
    let r = signup(&mut db, register("alice", "b@x.com", "password456"), NOW);
    assert!(matches!(r, Err(AppError::Conflict(_))));
    assert_eq!(db.users.len(), 1);
}

#[test]
fn verify_email_flow_and_single_use() {
    let mut db = AuthDb::new();
    let (_, token) = signup_alice(&mut db);
    assert!(!db.users[0].email_verified);

    let req = VerifyEmailRequest { token: token.clone() };
    let out = verify_email(&mut db, &req, NOW + 10).expect("live token must verify");
    assert!(db.users[0].email_verified);
    assert_eq!(out.0.message.as_deref(), Some("Email verified successfully"));
    match out.1 {
        EmailNotice::Welcome { to, username } => {
            assert_eq!(to, "a@x.com");
            assert_eq!(username, "alice");
        }
        _ => panic!("verification must hand back a welcome notice"),
    }

    // the same token a second time: consumed, hence invalid — even though
    // its expiry has not passed
    let again = verify_email(&mut db, &req, NOW + 20);
    match again {
        Err(AppError::BadRequest(m)) => assert_eq!(m, "Invalid or expired token"),
        _ => panic!("a consumed token must be rejected"),
    }
}

#[test]
fn expired_token_treated_like_absent() {
    let mut db = AuthDb::new();
    let (_, token) = signup_alice(&mut db);

    let absent = verify_email(
        &mut db,
        &VerifyEmailRequest { token: "no-such-token".to_string() },
        NOW + 10,
    );
    let expired = verify_email(
        &mut db,
        &VerifyEmailRequest { token },
        NOW + 86400, // exactly at expiry: no longer live
    );
    match (absent, expired) {
        (Err(AppError::BadRequest(m1)), Err(AppError::BadRequest(m2))) => assert_eq!(m1, m2),
        _ => panic!("absent and expired tokens must fail identically"),
    }
    assert!(!db.users[0].email_verified);
}

#[test]
fn login_before_and_after_verification() {
    let mut db = AuthDb::new();
    let (id, token) = signup_alice(&mut db);
    let creds = LoginUser { email: "a@x.com".to_string(), password: "password123".to_string() };

    // correct credentials, unverified email: the one distinguishable failure
    let before = login(&db, &creds, SECRET, NOW + 5);
    match before {
        Err(AppError::UnprocessableEntity(m)) => {
            assert_eq!(m, "Please verify your email before logging in")
        }
        _ => panic!("unverified login must fail with the verify-email error"),
    }

    verify_email(&mut db, &VerifyEmailRequest { token }, NOW + 10).expect("verification");

    let after = login(&db, &creds, SECRET, NOW + 20).expect("verified login succeeds");
    assert!(after.success);
    let auth = after.data.expect("login returns token and user");
    assert_eq!(auth.user.id, id);
    assert_eq!(auth.user.email, "a@x.com");
    // the bearer token validates to the correct subject id
    let claims = validate_token(&auth.token, SECRET, NOW + 30).expect("fresh token validates");
    assert_eq!(claims.sub, id);
    assert_eq!(claims.iat, NOW + 20);
    assert_eq!(claims.exp, NOW + 20 + 3600);
}

#[test]
fn login_unknown_email_and_wrong_password_identical() {
    let mut db = AuthDb::new();
    let (_, token) = signup_alice(&mut db);
    verify_email(&mut db, &VerifyEmailRequest { token }, NOW).expect("verification");

    let unknown = login(
        &db,
        &LoginUser { email: "ghost@x.com".to_string(), password: "password123".to_string() },
        SECRET,
        NOW,
    );
    let wrong = login(
        &db,
        &LoginUser { email: "a@x.com".to_string(), password: "wrongpassword".to_string() },
        SECRET,
        NOW,
    );
    let e1 = unknown.err().expect("unknown email fails");
    let e2 = wrong.err().expect("wrong password fails");
    assert_eq!(e1, AppError::Unauthorized);
    assert_eq!(e2, AppError::Unauthorized);
    assert_eq!(e1, e2);
}

#[test]
fn forgot_password_enumeration_resistance() {
    let mut db = AuthDb::new();
    signup_alice(&mut db);

    let known = forgot_password(
        &mut db,
        &ForgotPasswordRequest { email: "a@x.com".to_string() },
        NOW,
    )
    .expect("known email succeeds");
    let unknown = forgot_password(
        &mut db,
        &ForgotPasswordRequest { email: "ghost@x.com".to_string() },
        NOW,
    )
    .expect("unknown email succeeds too");

    // byte-identical success responses
    assert_eq!(known.0.success, unknown.0.success);
    assert_eq!(known.0.message, unknown.0.message);
    assert!(known.0.data.is_none() && unknown.0.data.is_none());
    assert_eq!(
        known.0.message.as_deref(),
        Some("If an account exists, a password reset email has been sent.")
    );
    // only the known account got a token issued
    assert!(known.1.is_some());
    assert!(unknown.1.is_none());
}

#[test]
fn resend_verification_enumeration_resistance() {
    let mut db = AuthDb::new();
    let (_, token) = signup_alice(&mut db);

    let unverified = resend_verification(
        &mut db,
        &ResendVerificationRequest { email: "a@x.com".to_string() },
        NOW,
    )
    .expect("resend for unverified account");
    let unknown = resend_verification(
        &mut db,
        &ResendVerificationRequest { email: "ghost@x.com".to_string() },
        NOW,
    )
    .expect("resend for unknown account");
    assert_eq!(unverified.0.message, unknown.0.message);
    assert!(unverified.1.is_some());
    assert!(unknown.1.is_none());

    // the first token was invalidated by the reissue
    let stale = verify_email(&mut db, &VerifyEmailRequest { token }, NOW + 10);
    assert!(matches!(stale, Err(AppError::BadRequest(_))));

    // an already-verified account also gets the identical generic message
    let new_token = match unverified.1.expect("notice") {
        EmailNotice::Verification { token, .. } => token,
        _ => panic!("verification notice expected"),
    };
    verify_email(&mut db, &VerifyEmailRequest { token: new_token }, NOW + 20)
        .expect("fresh token verifies");
    let verified = resend_verification(
        &mut db,
        &ResendVerificationRequest { email: "a@x.com".to_string() },
        NOW + 30,
    )
    .expect("resend for verified account");
    assert_eq!(verified.0.message, unknown.0.message);
    assert!(verified.1.is_none());
}

#[test]
fn reset_password_flow_and_replay() {
    let mut db = AuthDb::new();
    signup_alice(&mut db);

    let out = forgot_password(
        &mut db,
        &ForgotPasswordRequest { email: "a@x.com".to_string() },
        NOW,
    )
    .expect("forgot-password succeeds");
    let token = match out.1.expect("reset notice") {
        EmailNotice::PasswordReset { to, token } => {
            assert_eq!(to, "a@x.com");
            token
        }
        _ => panic!("password-reset notice expected"),
    };
    // the reset token carries a 1-hour expiry
    let issued = db.tokens.iter().find(|t| t.token == token).expect("token stored");
    assert!(matches!(issued.token_type, TokenType::PasswordReset));
    assert_eq!(issued.expires_at, NOW + 3600);

    let req = ResetPasswordRequest { token: token.clone(), new_password: "newpass1234".to_string() };
    reset_password(&mut db, &req, NOW + 10).expect("first reset succeeds");

    // replaying the same request fails: the token was consumed
    let replay = reset_password(&mut db, &req, NOW + 20);
    match replay {
        Err(AppError::BadRequest(m)) => assert_eq!(m, "Invalid or expired token"),
        _ => panic!("a replayed reset must fail"),
    }

    // the new password is in effect (after verifying the email)
    let (_, vtok) = {
        let out = resend_verification(
            &mut db,
            &ResendVerificationRequest { email: "a@x.com".to_string() },
            NOW + 30,
        )
        .expect("resend");
        match out.1.expect("notice") {
            EmailNotice::Verification { to, token } => (to, token),
            _ => panic!("verification notice expected"),
        }
    };
    verify_email(&mut db, &VerifyEmailRequest { token: vtok }, NOW + 40).expect("verify");
    let old_pw = login(
        &db,
        &LoginUser { email: "a@x.com".to_string(), password: "password123".to_string() },
        SECRET,
        NOW + 50,
    );
    assert_eq!(old_pw.err(), Some(AppError::Unauthorized));
    login(
        &db,
        &LoginUser { email: "a@x.com".to_string(), password: "newpass1234".to_string() },
        SECRET,
        NOW + 60,
    )
    .expect("login with the new password succeeds");
}

#[test]
fn expired_reset_token_rejected() {
    let mut db = AuthDb::new();
    signup_alice(&mut db);
    let out = forgot_password(
        &mut db,
        &ForgotPasswordRequest { email: "a@x.com".to_string() },
        NOW,
    )
    .expect("forgot-password succeeds");
    let token = match out.1.expect("notice") {
        EmailNotice::PasswordReset { token, .. } => token,
        _ => panic!("password-reset notice expected"),
    };
    let req = ResetPasswordRequest { token, new_password: "newpass1234".to_string() };
    let late = reset_password(&mut db, &req, NOW + 3600);
    assert!(matches!(late, Err(AppError::BadRequest(_))));
}

#[test]
fn reissue_invalidates_prior_reset_token() {
    let mut db = AuthDb::new();
    signup_alice(&mut db);
    let first = forgot_password(
        &mut db,
        &ForgotPasswordRequest { email: "a@x.com".to_string() },
        NOW,
    )
    .expect("first forgot-password");
    let t1 = match first.1.expect("notice") {
        EmailNotice::PasswordReset { token, .. } => token,
        _ => panic!("password-reset notice expected"),
    };
    let second = forgot_password(
        &mut db,
        &ForgotPasswordRequest { email: "a@x.com".to_string() },
        NOW + 5,
    )
    .expect("second forgot-password");
    let t2 = match second.1.expect("notice") {
        EmailNotice::PasswordReset { token, .. } => token,
        _ => panic!("password-reset notice expected"),
    };

    // only the newest token is live
    let stale = reset_password(
        &mut db,
        &ResetPasswordRequest { token: t1, new_password: "newpass1234".to_string() },
        NOW + 10,
    );
    assert!(matches!(stale, Err(AppError::BadRequest(_))));
    reset_password(
        &mut db,
        &ResetPasswordRequest { token: t2, new_password: "newpass1234".to_string() },
        NOW + 15,
    )
    .expect("the newest token works");
}

#[test]
fn identity_lookups() {
    let mut db = AuthDb::new();
    let (id, token) = signup_alice(&mut db);
    verify_email(&mut db, &VerifyEmailRequest { token }, NOW).expect("verify");
    let auth = login(
        &db,
        &LoginUser { email: "a@x.com".to_string(), password: "password123".to_string() },
        SECRET,
        NOW + 5,
    )
    .expect("login")
    .data
    .expect("auth payload");

    let claims = validate_token(&auth.token, SECRET, NOW + 10).expect("claims");
    let me = get_me(&db, &claims).expect("identity exists");
    let user = me.data.expect("public user");
    assert_eq!(user.id, id);
    assert_eq!(user.username, "alice");
    assert!(user.email_verified);

    let by_id = get_user_by_id(&db, id).expect("lookup by id");
    assert_eq!(by_id.data.expect("public user").id, id);

    let missing = get_user_by_id(&db, id + 1);
    match missing {
        Err(AppError::NotFound(m)) => assert_eq!(m, "User not found"),
        _ => panic!("unknown id must be not-found"),
    }
}
