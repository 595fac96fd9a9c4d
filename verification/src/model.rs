use vstd::prelude::*;

verus! {

/// An identity record. Owned by storage; the auth core only reads it and
/// conditionally mutates the password hash, the verification flag and the
/// update timestamp. Identifiers are plain numbers and timestamps are Unix
/// seconds, so that every field the logic reads is a plain value.
pub struct User {
    pub id: u64,
    pub username: String,
    pub email: String,
    pub bio: Option<String>,
    pub image: Option<String>,
    /// Never serialized outward: `UserResponse` is the only projection.
    pub password_hash: String,
    pub email_verified: bool,
    pub created_at: i64,
    pub updated_at: i64,
}

/// The two kinds of single-use credential tokens.
#[derive(Clone, Copy, Debug, PartialEq, Eq, Structural)]
pub enum TokenType {
    EmailVerification,
    PasswordReset,
}

/// A single-use, typed, time-bounded secret. A token is *live* iff it has
/// not been used and has not expired; liveness is computed on read, never
/// stored.
pub struct AuthToken {
    pub id: u64,
    pub user_id: u64,
    pub token: String,
    pub token_type: TokenType,
    pub expires_at: i64,
    pub used_at: Option<i64>,
    pub created_at: i64,
}

/// Liveness is derived state: not yet consumed, and not yet expired.
pub open spec fn is_live(t: AuthToken, now: i64) -> bool {
    t.used_at is None && now < t.expires_at
}

/// Signup payload. A preceding validation layer rejects malformed fields
/// (username length, email shape, password length) before the core runs.
pub struct RegisterUser {
    pub username: String,
    pub email: String,
    pub password: String,
}

/// Login payload.
pub struct LoginUser {
    pub email: String,
    pub password: String,
}

pub struct VerifyEmailRequest {
    pub token: String,
}

pub struct ForgotPasswordRequest {
    pub email: String,
}

pub struct ResetPasswordRequest {
    pub token: String,
    pub new_password: String,
}

pub struct ResendVerificationRequest {
    pub email: String,
}

/// The public projection of a user: everything except the password hash.
/// Omitting the hash here is a hard serialization boundary.
pub struct UserResponse {
    pub id: u64,
    pub username: String,
    pub email: String,
    pub bio: Option<String>,
    pub image: Option<String>,
    pub email_verified: bool,
}

/// What a successful login returns: a bearer token and the public user.
pub struct AuthResponse {
    pub token: String,
    pub user: UserResponse,
}

/// The projection that strips the password hash from a user record.
pub open spec fn user_projection(u: User) -> UserResponse {
    UserResponse {
        id: u.id,
        username: u.username,
        email: u.email,
        bio: u.bio,
        image: u.image,
        email_verified: u.email_verified,
    }
}

fn clone_opt_string(o: &Option<String>) -> (r: Option<String>)
    ensures
        r == *o,
{
    match o {
        Some(s) => Some(s.clone()),
        None => None,
    }
}

/// Builds the public projection of a borrowed user record.
pub fn public_user(u: &User) -> (r: UserResponse)
    ensures
        r == user_projection(*u),
{
    UserResponse {
        id: u.id,
        username: u.username.clone(),
        email: u.email.clone(),
        bio: clone_opt_string(&u.bio),
        image: clone_opt_string(&u.image),
        email_verified: u.email_verified,
    }
}

impl From<User> for UserResponse {
    fn from(user: User) -> (r: Self) {
        UserResponse {
            id: user.id,
            username: user.username,
            email: user.email,
            bio: user.bio,
            image: user.image,
            email_verified: user.email_verified,
        }
    }
}

impl vstd::std_specs::convert::FromSpecImpl<User> for UserResponse {
    open spec fn obeys_from_spec() -> bool {
        true
    }

    open spec fn from_spec(user: User) -> Self {
        user_projection(user)
    }
}

/// A notification the caller should deliver best-effort: the core never
/// fails the primary operation when delivery fails, so delivery is handed
/// back to the adaptation layer as data instead of performed here.
pub enum EmailNotice {
    Verification { to: String, token: String },
    PasswordReset { to: String, token: String },
    Welcome { to: String, username: String },
}

} // verus!
