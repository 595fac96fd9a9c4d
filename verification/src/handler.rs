use vstd::prelude::*;

use crate::crypto;
use crate::crypto::{good_hash_for, password_verifies, TOKEN_LEN};
use crate::error::AppError;
use crate::model::{
    public_user, user_projection, AuthResponse, EmailNotice, ForgotPasswordRequest, LoginUser,
    RegisterUser, ResendVerificationRequest, ResetPasswordRequest, TokenType, UserResponse,
    VerifyEmailRequest,
};
use crate::response::{ApiResponse, ApiResponseWithStatus, EmptyData};
use crate::store::{
    email_idx, has_live_match, has_user_with_email, has_user_with_id, has_user_with_username,
    lemma_email_match_unique, lemma_live_match_unique, lemma_user_id_match_unique,
    live_match_idx, spec_consumed, spec_invalidated, spec_verified, user_idx, AuthDb,
};

verus! {

/// The one success acknowledgment the resend-verification flow ever
/// returns, whether or not the account exists or is already verified.
pub open spec fn verification_ack(resp: ApiResponse<EmptyData>) -> bool {
    &&& resp.success == true
    &&& resp.data is None
    &&& (resp.message matches Some(m)
        && m@ == "If an account exists, a verification email has been sent."@)
}

/// The one success acknowledgment the forgot-password flow ever returns,
/// whether or not the account exists.
pub open spec fn recovery_ack(resp: ApiResponse<EmptyData>) -> bool {
    &&& resp.success == true
    &&& resp.data is None
    &&& (resp.message matches Some(m)
        && m@ == "If an account exists, a password reset email has been sent."@)
}

/// Email-verification tokens live for 24 hours.
pub const VERIFY_TTL_SECS: i64 = 86400;

/// Password-reset tokens live for 1 hour.
pub const RESET_TTL_SECS: i64 = 3600;

/// Creates a new user with an unverified email, issues a 24-hour
/// email-verification token, and hands back a verification notice for
/// best-effort delivery. Uniqueness of username and email is checked at the
/// storage layer and violated uniqueness is a conflict.
pub fn signup(db: &mut AuthDb, payload: RegisterUser, now: i64)
    -> (r: Result<(ApiResponseWithStatus<UserResponse>, EmailNotice), AppError>)
    requires
        old(db).wf(),
        old(db).next_user_id < u64::MAX,
        old(db).next_token_id < u64::MAX,
        now <= i64::MAX - VERIFY_TTL_SECS,
    ensures
        final(db).wf(),
        ({
            let users0 = old(db).users@;
            let toks0 = old(db).tokens@;
            let conflict = has_user_with_email(users0, payload.email@)
                || has_user_with_username(users0, payload.username@);
            &&& (r matches Err(AppError::Conflict(m)) ==> conflict
                && m@ == "Username or Email already exists"@ && *final(db) == *old(db))
            &&& (conflict ==> r matches Err(AppError::Conflict(_)))
            &&& (!conflict ==> (r is Ok || r matches Err(AppError::InternalServerError)))
            &&& (r matches Err(AppError::InternalServerError) ==> {
                &&& !conflict
                &&& final(db).tokens@ == toks0
                &&& (final(db).users@ == users0
                    || (final(db).users@.len() == users0.len() + 1
                        && final(db).users@.drop_last() == users0))
            })
            &&& (r matches Ok(out) ==> {
                let nu = final(db).users@.last();
                let nt = final(db).tokens@.last();
                &&& !conflict
                &&& final(db).users@.len() == users0.len() + 1
                &&& final(db).users@.drop_last() == users0
                &&& nu.id == old(db).next_user_id
                &&& nu.username@ == payload.username@
                &&& nu.email@ == payload.email@
                &&& nu.bio is None
                &&& nu.image is None
                &&& nu.email_verified == false
                &&& nu.created_at == now
                &&& nu.updated_at == now
                &&& good_hash_for(nu.password_hash@, payload.password@)
                &&& final(db).tokens@.len() == toks0.len() + 1
                &&& final(db).tokens@.drop_last() == toks0
                &&& nt.user_id == nu.id
                &&& nt.token_type == TokenType::EmailVerification
                &&& nt.expires_at == now + VERIFY_TTL_SECS
                &&& nt.used_at is None
                &&& nt.created_at == now
                &&& nt.token@.len() == TOKEN_LEN
                &&& out.0.status == 201
                &&& out.0.response.success == true
                &&& (out.0.response.message matches Some(m)
                    && m@ == "Account created. Please check your email to verify your account."@)
                &&& (out.0.response.data matches Some(u) && u == user_projection(nu))
                &&& (out.1 matches EmailNotice::Verification { to, token }
                    && to@ == payload.email@ && token@ == nt.token@)
            })
        }),
{
    let email_taken = db.find_user_by_email(&payload.email).is_some();
    let username_taken = db.find_user_by_username(&payload.username).is_some();
    if email_taken || username_taken {
        return Err(AppError::Conflict("Username or Email already exists".to_owned()));
    }

    let password_hash = match crypto::hash_password(payload.password.as_str()) {
        Some(h) => h,
        None => {
            return Err(AppError::InternalServerError);
        },
    };

    let user_id = db.create_user(payload.username, payload.email.clone(), password_hash, now);

    let token = crypto::generate_secure_token();
    proof {
        let users = db.users@;
        assert(users[users.len() - 1].id == user_id);
        assert(has_user_with_id(users, user_id));
        assert forall|i: int|
            0 <= i < db.tokens@.len() && (#[trigger] db.tokens@[i]).user_id == user_id
                && db.tokens@[i].token_type == TokenType::EmailVerification
            implies db.tokens@[i].used_at is Some by {
            assert(has_user_with_id(old(db).users@, db.tokens@[i].user_id));
            let w = choose|k: int|
                0 <= k < old(db).users@.len()
                    && (#[trigger] old(db).users@[k]).id == db.tokens@[i].user_id;
            assert(old(db).users@[w].id < old(db).next_user_id);
            assert(false);
        }
    }
    match db.insert_token(
        user_id,
        token.clone(),
        TokenType::EmailVerification,
        now + VERIFY_TTL_SECS,
        now,
    ) {
        Ok(_) => {},
        Err(_) => {
            proof {
                assert(db.users@.drop_last() =~= old(db).users@);
            }
            return Err(AppError::InternalServerError);
        },
    }

    let uidx = db.users.len() - 1;
    let resp_user = public_user(&db.users[uidx]);
    let resp = ApiResponse::success_with_message(
        "Account created. Please check your email to verify your account.".to_owned(),
        resp_user,
    ).created();
    let notice = EmailNotice::Verification { to: payload.email, token };
    proof {
        assert(db.users@.drop_last() =~= old(db).users@);
        assert(db.tokens@.drop_last() =~= old(db).tokens@);
    }
    Ok((resp, notice))
}

/// Consumes a live email-verification token and, in the same step, marks
/// the owning user's email as verified. Absent, consumed and expired tokens
/// are rejected with one and the same message.
pub fn verify_email(db: &mut AuthDb, payload: &VerifyEmailRequest, now: i64)
    -> (r: Result<(ApiResponse<EmptyData>, EmailNotice), AppError>)
    requires
        old(db).wf(),
    ensures
        final(db).wf(),
        ({
            let toks0 = old(db).tokens@;
            let users0 = old(db).users@;
            let found = has_live_match(toks0, payload.token@, TokenType::EmailVerification, now);
            &&& ((!found) <==> (r matches Err(AppError::BadRequest(m))
                && m@ == "Invalid or expired token"@))
            &&& (!found ==> *final(db) == *old(db))
            &&& (found <==> r is Ok)
            &&& (r matches Ok(out) ==> {
                let i = live_match_idx(toks0, payload.token@, TokenType::EmailVerification, now);
                let t = toks0[i];
                let j = user_idx(users0, t.user_id);
                let u = users0[j];
                &&& final(db).tokens@ == toks0.update(i, spec_consumed(t, now))
                &&& final(db).users@ == users0.update(j, spec_verified(u, now))
                &&& final(db).next_user_id == old(db).next_user_id
                &&& final(db).next_token_id == old(db).next_token_id
                &&& out.0.success == true
                &&& (out.0.message matches Some(m) && m@ == "Email verified successfully"@)
                &&& out.0.data is None
                &&& (out.1 matches EmailNotice::Welcome { to, username }
                    && to@ == u.email@ && username@ == u.username@)
            })
        }),
{
    let idx = match db.find_live(&payload.token, TokenType::EmailVerification, now) {
        Some(i) => i,
        None => {
            return Err(AppError::BadRequest("Invalid or expired token".to_owned()));
        },
    };
    proof {
        lemma_live_match_unique(
            db.tokens@, payload.token@, TokenType::EmailVerification, now, idx as int);
    }
    let owner_id = db.tokens[idx].user_id;
    proof {
        assert(db.tokens@[idx as int].user_id == owner_id);
        assert(has_user_with_id(db.users@, owner_id));
    }
    let uidx = match db.find_user_by_id(owner_id) {
        Some(j) => j,
        None => {
            proof {
                assert(false);
            }
            return Err(AppError::InternalServerError);
        },
    };
    proof {
        lemma_user_id_match_unique(db.users@, owner_id, uidx as int);
    }
    db.consume(idx, now);
    db.set_email_verified(uidx, now);
    let to = db.users[uidx].email.clone();
    let username = db.users[uidx].username.clone();
    let notice = EmailNotice::Welcome { to, username };
    Ok((ApiResponse::ok("Email verified successfully".to_owned()), notice))
}

/// Checks the credentials against the stored record and, when the email is
/// verified, mints a one-hour bearer token. Unknown email and wrong
/// password are one and the same unauthorized outcome; an unverified email
/// is the one distinguishable failure, since a matching password already
/// implies the account exists.
pub fn login(db: &AuthDb, payload: &LoginUser, secret: &str, now: i64)
    -> (r: Result<ApiResponse<AuthResponse>, AppError>)
    requires
        db.wf(),
        now <= i64::MAX - crate::jwt::SESSION_TTL_SECS,
    ensures
        ({
            let users = db.users@;
            let e = payload.email@;
            let known = has_user_with_email(users, e);
            let u = users[email_idx(users, e)];
            let pw_ok = known && password_verifies(u.password_hash@, payload.password@);
            &&& (!pw_ok <==> (r matches Err(err) && err is Unauthorized))
            &&& ((pw_ok && !u.email_verified) <==> (r matches Err(AppError::UnprocessableEntity(m))
                && m@ == "Please verify your email before logging in"@))
            &&& ((pw_ok && u.email_verified) <==> r is Ok)
            &&& (r matches Ok(resp) ==> {
                &&& pw_ok
                &&& u.email_verified
                &&& resp.success == true
                &&& resp.message is None
                &&& (resp.data matches Some(auth) && {
                    &&& auth.user == user_projection(u)
                    &&& auth.token@ == crate::jwt::jwt_of(
                        u.id, now, (now + crate::jwt::SESSION_TTL_SECS) as i64, secret@)
                    &&& crate::jwt::jwt_parse(auth.token@, secret@)
                        == Some((u.id, now, (now + crate::jwt::SESSION_TTL_SECS) as i64))
                })
            })
        }),
{
    let uidx = match db.find_user_by_email(&payload.email) {
        Some(i) => i,
        None => {
            return Err(AppError::Unauthorized);
        },
    };
    proof {
        lemma_email_match_unique(db.users@, payload.email@, uidx as int);
    }
    let user = &db.users[uidx];
    if !crypto::verify_password(user.password_hash.as_str(), payload.password.as_str()) {
        return Err(AppError::Unauthorized);
    }
    if !user.email_verified {
        return Err(AppError::UnprocessableEntity(
            "Please verify your email before logging in".to_owned()));
    }
    let token = crate::jwt::create_token(user.id, secret, now);
    let auth = AuthResponse { token, user: public_user(user) };
    Ok(ApiResponse::success(auth))
}

/// Invalidate-and-reissue of a typed credential token for one user,
/// shared by the resend-verification and forgot-password flows. Returns
/// the freshly issued opaque token string.
fn reissue_token(db: &mut AuthDb, uidx: usize, tt: TokenType, expires_at: i64, now: i64)
    -> (r: Result<String, AppError>)
    requires
        old(db).wf(),
        old(db).next_token_id < u64::MAX,
        uidx < old(db).users@.len(),
    ensures
        final(db).wf(),
        final(db).users@ == old(db).users@,
        final(db).next_user_id == old(db).next_user_id,
        ({
            let uid = old(db).users@[uidx as int].id;
            let toks0 = old(db).tokens@;
            &&& final(db).tokens@.len() >= toks0.len()
            &&& (forall|k: int|
                0 <= k < toks0.len() ==> final(db).tokens@[k] == spec_invalidated(
                    #[trigger] toks0[k], uid, tt, now))
            &&& (r matches Err(e) ==> e is InternalServerError
                && final(db).tokens@.len() == toks0.len())
            &&& (r matches Ok(token) ==> {
                let nt = final(db).tokens@.last();
                &&& final(db).tokens@.len() == toks0.len() + 1
                &&& nt.user_id == uid
                &&& nt.token_type == tt
                &&& nt.expires_at == expires_at
                &&& nt.used_at is None
                &&& nt.created_at == now
                &&& nt.token@ == token@
                &&& token@.len() == TOKEN_LEN
            })
        }),
{
    let user_id = db.users[uidx].id;
    db.invalidate_tokens(user_id, tt, now);
    let token = crypto::generate_secure_token();
    proof {
        assert(db.users@[uidx as int].id == user_id);
        assert(has_user_with_id(db.users@, user_id));
    }
    match db.insert_token(user_id, token.clone(), tt, expires_at, now) {
        Ok(_) => Ok(token),
        Err(_) => Err(AppError::InternalServerError),
    }
}

/// Re-sends the email-verification link. When the email is unknown, or the
/// account is already verified, nothing changes and the caller still gets
/// the one generic success message — the same bytes as the issuing path —
/// so that responses reveal nothing about which accounts exist.
pub fn resend_verification(db: &mut AuthDb, payload: &ResendVerificationRequest, now: i64)
    -> (r: Result<(ApiResponse<EmptyData>, Option<EmailNotice>), AppError>)
    requires
        old(db).wf(),
        old(db).next_token_id < u64::MAX,
        now <= i64::MAX - VERIFY_TTL_SECS,
    ensures
        final(db).wf(),
        final(db).users@ == old(db).users@,
        (r matches Ok(out) ==> verification_ack(out.0)),
        ({
            let users0 = old(db).users@;
            let toks0 = old(db).tokens@;
            let e = payload.email@;
            let known = has_user_with_email(users0, e);
            let u = users0[email_idx(users0, e)];
            &&& (!known ==> (r is Ok && *final(db) == *old(db)))
            &&& ((known && u.email_verified) ==> (r is Ok && *final(db) == *old(db)))
            &&& ((!known || u.email_verified) ==> (r matches Ok(out) && out.1 is None))
            &&& ((known && !u.email_verified) ==> {
                &&& (forall|k: int|
                    0 <= k < toks0.len() ==> final(db).tokens@[k] == spec_invalidated(
                        #[trigger] toks0[k], u.id, TokenType::EmailVerification, now))
                &&& (r is Ok || r matches Err(AppError::InternalServerError))
                &&& (r matches Ok(out) ==> {
                    let nt = final(db).tokens@.last();
                    &&& final(db).tokens@.len() == toks0.len() + 1
                    &&& nt.user_id == u.id
                    &&& nt.token_type == TokenType::EmailVerification
                    &&& nt.expires_at == now + VERIFY_TTL_SECS
                    &&& nt.used_at is None
                    &&& nt.created_at == now
                    &&& nt.token@.len() == TOKEN_LEN
                    &&& (out.1 matches Some(n) && n matches EmailNotice::Verification {
                        to, token } && to@ == u.email@ && token@ == nt.token@)
                })
            })
        }),
{
    let uidx = match db.find_user_by_email(&payload.email) {
        Some(i) => i,
        None => {
            return Ok((ApiResponse::ok(
                "If an account exists, a verification email has been sent.".to_owned()), None));
        },
    };
    proof {
        lemma_email_match_unique(db.users@, payload.email@, uidx as int);
    }
    if db.users[uidx].email_verified {
        return Ok((ApiResponse::ok(
            "If an account exists, a verification email has been sent.".to_owned()), None));
    }
    let to = db.users[uidx].email.clone();
    let token = match reissue_token(db, uidx, TokenType::EmailVerification,
        now + VERIFY_TTL_SECS, now) {
        Ok(t) => t,
        Err(e) => {
            return Err(e);
        },
    };
    Ok((
        ApiResponse::ok("If an account exists, a verification email has been sent.".to_owned()),
        Some(EmailNotice::Verification { to, token }),
    ))
}

/// Starts password recovery. Unknown emails get the same generic success
/// message as known ones — byte-identical, by design — and only a known
/// account has its reset token invalidated and reissued with a one-hour
/// expiry.
pub fn forgot_password(db: &mut AuthDb, payload: &ForgotPasswordRequest, now: i64)
    -> (r: Result<(ApiResponse<EmptyData>, Option<EmailNotice>), AppError>)
    requires
        old(db).wf(),
        old(db).next_token_id < u64::MAX,
        now <= i64::MAX - RESET_TTL_SECS,
    ensures
        final(db).wf(),
        final(db).users@ == old(db).users@,
        (r matches Ok(out) ==> recovery_ack(out.0)),
        ({
            let users0 = old(db).users@;
            let toks0 = old(db).tokens@;
            let e = payload.email@;
            let known = has_user_with_email(users0, e);
            let u = users0[email_idx(users0, e)];
            &&& (!known ==> (r is Ok && *final(db) == *old(db)
                && (r matches Ok(out) ==> out.1 is None)))
            &&& (known ==> {
                &&& (forall|k: int|
                    0 <= k < toks0.len() ==> final(db).tokens@[k] == spec_invalidated(
                        #[trigger] toks0[k], u.id, TokenType::PasswordReset, now))
                &&& (r is Ok || r matches Err(AppError::InternalServerError))
                &&& (r matches Ok(out) ==> {
                    let nt = final(db).tokens@.last();
                    &&& final(db).tokens@.len() == toks0.len() + 1
                    &&& nt.user_id == u.id
                    &&& nt.token_type == TokenType::PasswordReset
                    &&& nt.expires_at == now + RESET_TTL_SECS
                    &&& nt.used_at is None
                    &&& nt.created_at == now
                    &&& nt.token@.len() == TOKEN_LEN
                    &&& (out.1 matches Some(n) && n matches EmailNotice::PasswordReset {
                        to, token } && to@ == u.email@ && token@ == nt.token@)
                })
            })
        }),
{
    let uidx = match db.find_user_by_email(&payload.email) {
        Some(i) => i,
        None => {
            return Ok((ApiResponse::ok(
                "If an account exists, a password reset email has been sent.".to_owned()), None));
        },
    };
    proof {
        lemma_email_match_unique(db.users@, payload.email@, uidx as int);
    }
    let to = db.users[uidx].email.clone();
    let token = match reissue_token(db, uidx, TokenType::PasswordReset, now + RESET_TTL_SECS, now)
        {
        Ok(t) => t,
        Err(e) => {
            return Err(e);
        },
    };
    Ok((
        ApiResponse::ok("If an account exists, a password reset email has been sent.".to_owned()),
        Some(EmailNotice::PasswordReset { to, token }),
    ))
}

/// Consumes a live password-reset token and, in the same step, overwrites
/// the owning user's stored credential with a fresh digest of the new
/// password. A replay of the same token is rejected like an unknown one.
pub fn reset_password(db: &mut AuthDb, payload: &ResetPasswordRequest, now: i64)
    -> (r: Result<ApiResponse<EmptyData>, AppError>)
    requires
        old(db).wf(),
    ensures
        final(db).wf(),
        ({
            let toks0 = old(db).tokens@;
            let users0 = old(db).users@;
            let found = has_live_match(toks0, payload.token@, TokenType::PasswordReset, now);
            &&& ((!found) <==> (r matches Err(AppError::BadRequest(m))
                && m@ == "Invalid or expired token"@))
            &&& (!found ==> *final(db) == *old(db))
            &&& (found ==> (r is Ok || r matches Err(AppError::InternalServerError)))
            &&& (r matches Err(AppError::InternalServerError) ==> *final(db) == *old(db))
            &&& (r matches Ok(resp) ==> {
                let i = live_match_idx(toks0, payload.token@, TokenType::PasswordReset, now);
                let t = toks0[i];
                let j = user_idx(users0, t.user_id);
                let u = users0[j];
                let nu = final(db).users@[j];
                &&& found
                &&& final(db).tokens@ == toks0.update(i, spec_consumed(t, now))
                &&& final(db).users@.len() == users0.len()
                &&& (forall|k: int|
                    0 <= k < users0.len() && k != j
                        ==> #[trigger] final(db).users@[k] == users0[k])
                &&& nu.id == u.id
                &&& nu.username == u.username
                &&& nu.email == u.email
                &&& nu.bio == u.bio
                &&& nu.image == u.image
                &&& nu.email_verified == u.email_verified
                &&& nu.created_at == u.created_at
                &&& nu.updated_at == now
                &&& good_hash_for(nu.password_hash@, payload.new_password@)
                &&& resp.success == true
                &&& (resp.message matches Some(m) && m@ == "Password reset successfully"@)
                &&& resp.data is None
            })
        }),
{
    let idx = match db.find_live(&payload.token, TokenType::PasswordReset, now) {
        Some(i) => i,
        None => {
            return Err(AppError::BadRequest("Invalid or expired token".to_owned()));
        },
    };
    proof {
        lemma_live_match_unique(
            db.tokens@, payload.token@, TokenType::PasswordReset, now, idx as int);
    }
    let password_hash = match crypto::hash_password(payload.new_password.as_str()) {
        Some(h) => h,
        None => {
            return Err(AppError::InternalServerError);
        },
    };
    let owner_id = db.tokens[idx].user_id;
    proof {
        assert(db.tokens@[idx as int].user_id == owner_id);
        assert(has_user_with_id(db.users@, owner_id));
    }
    let uidx = match db.find_user_by_id(owner_id) {
        Some(j) => j,
        None => {
            proof {
                assert(false);
            }
            return Err(AppError::InternalServerError);
        },
    };
    proof {
        lemma_user_id_match_unique(db.users@, owner_id, uidx as int);
    }
    db.consume(idx, now);
    db.set_password_hash(uidx, password_hash, now);
    Ok(ApiResponse::ok("Password reset successfully".to_owned()))
}

/// Returns the public projection of the user a validated bearer token
/// refers to, or not-found when that identity has since disappeared.
pub fn get_me(db: &AuthDb, claims: &crate::jwt::Claims)
    -> (r: Result<ApiResponse<UserResponse>, AppError>)
    requires
        db.wf(),
    ensures
        ({
            let known = has_user_with_id(db.users@, claims.sub);
            &&& ((!known) <==> (r matches Err(AppError::NotFound(m))
                && m@ == "User not found"@))
            &&& (known <==> r is Ok)
            &&& (r matches Ok(resp) ==> resp.success == true && resp.message is None
                && (resp.data matches Some(u)
                    && u == user_projection(db.users@[user_idx(db.users@, claims.sub)])))
        }),
{
    get_user_by_id(db, claims.sub)
}

/// Public point lookup of a user by id.
pub fn get_user_by_id(db: &AuthDb, id: u64) -> (r: Result<ApiResponse<UserResponse>, AppError>)
    requires
        db.wf(),
    ensures
        ({
            let known = has_user_with_id(db.users@, id);
            &&& ((!known) <==> (r matches Err(AppError::NotFound(m))
                && m@ == "User not found"@))
            &&& (known <==> r is Ok)
            &&& (r matches Ok(resp) ==> resp.success == true && resp.message is None
                && (resp.data matches Some(u)
                    && u == user_projection(db.users@[user_idx(db.users@, id)])))
        }),
{
    let uidx = match db.find_user_by_id(id) {
        Some(i) => i,
        None => {
            return Err(AppError::NotFound("User not found".to_owned()));
        },
    };
    proof {
        lemma_user_id_match_unique(db.users@, id, uidx as int);
    }
    Ok(ApiResponse::success(public_user(&db.users[uidx])))
}

} // verus!
