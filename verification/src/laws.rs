use vstd::prelude::*;

use crate::crypto::{good_hash_for, password_verifies};
use crate::error::AppError;
use crate::handler::{recovery_ack, verification_ack};
use crate::model::{is_live, AuthToken, TokenType};
use crate::response::{ApiResponse, EmptyData};
use crate::store::{has_live_match, spec_consumed, token_match, token_strings_unique, AuthDb};

verus! {

/// A stored credential produced by hashing protects the plaintext: it
/// verifies against that plaintext and against nothing else, and — for any
/// plaintext that is not itself a PHC-format string — the digest never
/// equals the plaintext.
pub proof fn lemma_hash_protects(digest: Seq<char>, plain: Seq<char>)
    ensures
        good_hash_for(digest, plain) ==> {
            &&& password_verifies(digest, plain)
            &&& forall|other: Seq<char>| other != plain ==> !password_verifies(digest, other)
            &&& ((plain.len() == 0 || plain.first() != '$') ==> digest != plain)
        },
{
    if good_hash_for(digest, plain) && (plain.len() == 0 || plain.first() != '$') {
        if digest == plain {
            assert(digest.first() == plain.first());
            assert(digest.len() == plain.len());
            assert(false);
        }
    }
}

/// A token once consumed can never again satisfy a live lookup, at any
/// instant — even one before its expiry.
pub proof fn lemma_consumed_never_live(tokens: Seq<AuthToken>, s: Seq<char>, tt: TokenType, now: i64)
    requires
        forall|i: int|
            0 <= i < tokens.len() && token_match(#[trigger] tokens[i], s, tt)
                ==> tokens[i].used_at is Some,
    ensures
        !has_live_match(tokens, s, tt, now),
{
    if has_live_match(tokens, s, tt, now) {
        let w = choose|i: int|
            0 <= i < tokens.len() && token_match(#[trigger] tokens[i], s, tt)
                && is_live(tokens[i], now);
        assert(tokens[w].used_at is Some);
        assert(false);
    }
}

/// The consuming step of verify-email and reset-password is final: once
/// the matching token is consumed, that token string has no live match at
/// any later instant — even one before the token's expiry.
pub proof fn lemma_consumed_update_kills_match(
    tokens: Seq<AuthToken>,
    i: int,
    s: Seq<char>,
    tt: TokenType,
    now: i64,
    later: i64,
)
    requires
        token_strings_unique(tokens),
        0 <= i < tokens.len(),
        token_match(tokens[i], s, tt),
    ensures
        !has_live_match(tokens.update(i, spec_consumed(tokens[i], now)), s, tt, later),
{
    let upd = tokens.update(i, spec_consumed(tokens[i], now));
    assert forall|k: int|
        0 <= k < upd.len() && token_match(#[trigger] upd[k], s, tt)
        implies upd[k].used_at is Some by {
        if k != i {
            assert(upd[k] == tokens[k]);
            if k < i {
                assert(tokens[k].token@ != tokens[i].token@);
            } else {
                assert(tokens[i].token@ != tokens[k].token@);
            }
            assert(false);
        }
    }
    lemma_consumed_never_live(upd, s, tt, later);
}

/// A token whose expiry has passed yields no live match: together with
/// `lemma_absent_never_live`, expired and nonexistent tokens are treated
/// identically by the live lookup.
pub proof fn lemma_expired_never_live(tokens: Seq<AuthToken>, s: Seq<char>, tt: TokenType, now: i64)
    requires
        forall|i: int|
            0 <= i < tokens.len() && token_match(#[trigger] tokens[i], s, tt)
                ==> now >= tokens[i].expires_at,
    ensures
        !has_live_match(tokens, s, tt, now),
{
    if has_live_match(tokens, s, tt, now) {
        let w = choose|i: int|
            0 <= i < tokens.len() && token_match(#[trigger] tokens[i], s, tt)
                && is_live(tokens[i], now);
        assert(now >= tokens[w].expires_at);
        assert(false);
    }
}

/// A token string stored nowhere yields no live match.
pub proof fn lemma_absent_never_live(tokens: Seq<AuthToken>, s: Seq<char>, tt: TokenType, now: i64)
    requires
        forall|i: int| 0 <= i < tokens.len() ==> (#[trigger] tokens[i]).token@ != s,
    ensures
        !has_live_match(tokens, s, tt, now),
{
    if has_live_match(tokens, s, tt, now) {
        let w = choose|i: int|
            0 <= i < tokens.len() && token_match(#[trigger] tokens[i], s, tt)
                && is_live(tokens[i], now);
        assert(tokens[w].token@ != s);
        assert(false);
    }
}

/// In a well-formed store, at most one token of any (user, type) pair is
/// live at any instant: issuing invalidates the predecessors, so only the
/// newest can ever be live.
pub proof fn lemma_at_most_one_live_per_pair(db: &AuthDb, now: i64)
    requires
        db.wf(),
    ensures
        forall|i: int, j: int|
            0 <= i < j < db.tokens@.len()
                && (#[trigger] db.tokens@[i]).user_id == (#[trigger] db.tokens@[j]).user_id
                && db.tokens@[i].token_type == db.tokens@[j].token_type
                ==> !(is_live(db.tokens@[i], now) && is_live(db.tokens@[j], now)),
{
    assert forall|i: int, j: int|
        0 <= i < j < db.tokens@.len()
            && (#[trigger] db.tokens@[i]).user_id == (#[trigger] db.tokens@[j]).user_id
            && db.tokens@[i].token_type == db.tokens@[j].token_type
        implies !(is_live(db.tokens@[i], now) && is_live(db.tokens@[j], now)) by {
        if is_live(db.tokens@[i], now) && is_live(db.tokens@[j], now) {
            assert(!(db.tokens@[i].used_at is None && db.tokens@[j].used_at is None));
            assert(false);
        }
    }
}

/// After an invalidate-and-reissue pass — every earlier token of the
/// (user, type) pair consumed, the fresh token appended unconsumed — none
/// of the earlier tokens of the pair can be live at any instant: only the
/// newest ever is, and it is live exactly until its expiry.
pub proof fn lemma_only_newest_live(tokens: Seq<AuthToken>, user_id: u64, tt: TokenType, now: i64)
    requires
        tokens.len() > 0,
        forall|i: int|
            0 <= i < tokens.len() - 1 && (#[trigger] tokens[i]).user_id == user_id
                && tokens[i].token_type == tt ==> tokens[i].used_at is Some,
        tokens.last().user_id == user_id,
        tokens.last().token_type == tt,
        tokens.last().used_at is None,
    ensures
        forall|i: int|
            0 <= i < tokens.len() - 1 && (#[trigger] tokens[i]).user_id == user_id
                && tokens[i].token_type == tt ==> !is_live(tokens[i], now),
        is_live(tokens.last(), now) <==> now < tokens.last().expires_at,
{
}

/// Enumeration resistance of forgot-password: any two successful
/// acknowledgments are observably identical — same success flag, same
/// message text, no payload — whether or not the targeted account exists.
pub proof fn lemma_recovery_ack_uniform(r1: ApiResponse<EmptyData>, r2: ApiResponse<EmptyData>)
    requires
        recovery_ack(r1),
        recovery_ack(r2),
    ensures
        r1.success == r2.success,
        r1.data is None && r2.data is None,
        r1.message matches Some(m1) && r2.message matches Some(m2) && m1@ == m2@,
{
}

/// Enumeration resistance of resend-verification, likewise.
pub proof fn lemma_verification_ack_uniform(r1: ApiResponse<EmptyData>, r2: ApiResponse<EmptyData>)
    requires
        verification_ack(r1),
        verification_ack(r2),
    ensures
        r1.success == r2.success,
        r1.data is None && r2.data is None,
        r1.message matches Some(m1) && r2.message matches Some(m2) && m1@ == m2@,
{
}

/// Login's unauthorized outcome is one value: the result for an unknown
/// email and the result for a wrong password cannot be told apart.
pub proof fn lemma_unauthorized_indistinguishable<T>(
    r1: Result<T, AppError>,
    r2: Result<T, AppError>,
)
    requires
        r1 matches Err(e1) && e1 is Unauthorized,
        r2 matches Err(e2) && e2 is Unauthorized,
    ensures
        r1 == r2,
{
}

/// The verify-your-email failure is distinguishable from the unauthorized
/// outcome: a matching password already implies the account exists, so the
/// distinct message leaks nothing new.
pub proof fn lemma_unverified_outcome_distinct(m: String)
    ensures
        AppError::UnprocessableEntity(m) != AppError::Unauthorized,
{
}

} // verus!
