use vstd::prelude::*;

use crate::model::{is_live, AuthToken, TokenType, User};

verus! {

// ---------------------------------------------------------------------------
// Spec-level views of the durable state
// ---------------------------------------------------------------------------

pub open spec fn user_ids_unique(users: Seq<User>) -> bool {
    forall|i: int, j: int|
        0 <= i < j < users.len() ==> #[trigger] users[i].id != #[trigger] users[j].id
}

pub open spec fn usernames_unique(users: Seq<User>) -> bool {
    forall|i: int, j: int|
        0 <= i < j < users.len() ==> #[trigger] users[i].username@ != #[trigger] users[j].username@
}

pub open spec fn emails_unique(users: Seq<User>) -> bool {
    forall|i: int, j: int|
        0 <= i < j < users.len() ==> #[trigger] users[i].email@ != #[trigger] users[j].email@
}

pub open spec fn token_ids_unique(tokens: Seq<AuthToken>) -> bool {
    forall|i: int, j: int|
        0 <= i < j < tokens.len() ==> #[trigger] tokens[i].id != #[trigger] tokens[j].id
}

pub open spec fn token_strings_unique(tokens: Seq<AuthToken>) -> bool {
    forall|i: int, j: int|
        0 <= i < j < tokens.len() ==> #[trigger] tokens[i].token@ != #[trigger] tokens[j].token@
}

/// Best-effort single-live-token discipline, as maintained by the sequential
/// operations of this store: of all tokens of one (user, type) pair, at most
/// one is not yet consumed. Liveness implies not-consumed, so at most one per
/// pair is ever live, at any instant.
pub open spec fn at_most_one_unused_per_pair(tokens: Seq<AuthToken>) -> bool {
    forall|i: int, j: int|
        0 <= i < j < tokens.len()
            && (#[trigger] tokens[i]).user_id == (#[trigger] tokens[j]).user_id
            && tokens[i].token_type == tokens[j].token_type
            ==> !(tokens[i].used_at is None && tokens[j].used_at is None)
}

pub open spec fn has_user_with_email(users: Seq<User>, email: Seq<char>) -> bool {
    exists|i: int| 0 <= i < users.len() && (#[trigger] users[i]).email@ == email
}

pub open spec fn email_idx(users: Seq<User>, email: Seq<char>) -> int {
    choose|i: int| 0 <= i < users.len() && (#[trigger] users[i]).email@ == email
}

pub open spec fn has_user_with_username(users: Seq<User>, username: Seq<char>) -> bool {
    exists|i: int| 0 <= i < users.len() && (#[trigger] users[i]).username@ == username
}

pub open spec fn has_user_with_id(users: Seq<User>, id: u64) -> bool {
    exists|i: int| 0 <= i < users.len() && (#[trigger] users[i]).id == id
}

pub open spec fn user_idx(users: Seq<User>, id: u64) -> int {
    choose|i: int| 0 <= i < users.len() && (#[trigger] users[i]).id == id
}

/// Whether `t` is a token of the lookup key `(s, tt)`.
pub open spec fn token_match(t: AuthToken, s: Seq<char>, tt: TokenType) -> bool {
    t.token@ == s && t.token_type == tt
}

/// Whether some token matches `(s, tt)` and is live at `now`: exactly the
/// question `find_live` answers.
pub open spec fn has_live_match(tokens: Seq<AuthToken>, s: Seq<char>, tt: TokenType, now: i64) -> bool {
    exists|i: int|
        0 <= i < tokens.len() && token_match(#[trigger] tokens[i], s, tt) && is_live(tokens[i], now)
}

pub open spec fn live_match_idx(tokens: Seq<AuthToken>, s: Seq<char>, tt: TokenType, now: i64) -> int {
    choose|i: int|
        0 <= i < tokens.len() && token_match(#[trigger] tokens[i], s, tt) && is_live(tokens[i], now)
}

/// `t` after the eager invalidation pass for the pair `(user_id, tt)`:
/// consumed if it was a not-yet-consumed token of that pair, untouched
/// otherwise.
pub open spec fn spec_invalidated(t: AuthToken, user_id: u64, tt: TokenType, now: i64) -> AuthToken {
    if t.user_id == user_id && t.token_type == tt && t.used_at is None {
        AuthToken { used_at: Some(now), ..t }
    } else {
        t
    }
}

/// `t` once consumed at `now`.
pub open spec fn spec_consumed(t: AuthToken, now: i64) -> AuthToken {
    AuthToken { used_at: Some(now), ..t }
}

/// `u` with its email ownership confirmed at `now`.
pub open spec fn spec_verified(u: User, now: i64) -> User {
    User { email_verified: true, updated_at: now, ..u }
}

/// `u` with a new credential digest at `now`.
pub open spec fn spec_rehashed(u: User, hash: String, now: i64) -> User {
    User { password_hash: hash, updated_at: now, ..u }
}

// ---------------------------------------------------------------------------
// The store
// ---------------------------------------------------------------------------

/// The durable state the auth core runs against: user records and credential
/// tokens, with the identifier counters that keep ids unique. The storage
/// collaborator owns persistence; this structure is its narrow contract —
/// point lookups by unique key, conditional updates, and the token state
/// machine — stated exactly and verified.
pub struct AuthDb {
    pub users: Vec<User>,
    pub tokens: Vec<AuthToken>,
    pub next_user_id: u64,
    pub next_token_id: u64,
}

impl AuthDb {
    /// Well-formedness: unique keys, fresh counters, referential integrity,
    /// and the at-most-one-unconsumed-token-per-pair discipline.
    pub open spec fn wf(&self) -> bool {
        &&& user_ids_unique(self.users@)
        &&& usernames_unique(self.users@)
        &&& emails_unique(self.users@)
        &&& forall|i: int|
            0 <= i < self.users@.len() ==> (#[trigger] self.users@[i]).id < self.next_user_id
        &&& token_ids_unique(self.tokens@)
        &&& token_strings_unique(self.tokens@)
        &&& forall|i: int|
            0 <= i < self.tokens@.len() ==> (#[trigger] self.tokens@[i]).id < self.next_token_id
        &&& forall|i: int|
            0 <= i < self.tokens@.len()
                ==> has_user_with_id(self.users@, (#[trigger] self.tokens@[i]).user_id)
        &&& at_most_one_unused_per_pair(self.tokens@)
    }

    /// An empty store.
    pub fn new() -> (r: Self)
        ensures
            r.wf(),
            r.users@ == Seq::<User>::empty(),
            r.tokens@ == Seq::<AuthToken>::empty(),
            r.next_user_id == 1,
            r.next_token_id == 1,
    {
        AuthDb { users: Vec::new(), tokens: Vec::new(), next_user_id: 1, next_token_id: 1 }
    }

    /// Point lookup by unique email.
    pub fn find_user_by_email(&self, email: &String) -> (r: Option<usize>)
        ensures
            r matches Some(i) ==> i < self.users@.len() && self.users@[i as int].email@ == email@,
            r is None ==> !has_user_with_email(self.users@, email@),
    {
        let n = self.users.len();
        let mut i: usize = 0;
        while i < n
            invariant
                n == self.users@.len(),
                i <= n,
                forall|j: int| 0 <= j < i ==> (#[trigger] self.users@[j]).email@ != email@,
            decreases n - i,
        {
            if self.users[i].email == *email {
                return Some(i);
            }
            i = i + 1;
        }
        None
    }

    /// Point lookup by unique username.
    pub fn find_user_by_username(&self, username: &String) -> (r: Option<usize>)
        ensures
            r matches Some(i) ==> i < self.users@.len()
                && self.users@[i as int].username@ == username@,
            r is None ==> !has_user_with_username(self.users@, username@),
    {
        let n = self.users.len();
        let mut i: usize = 0;
        while i < n
            invariant
                n == self.users@.len(),
                i <= n,
                forall|j: int| 0 <= j < i ==> (#[trigger] self.users@[j]).username@ != username@,
            decreases n - i,
        {
            if self.users[i].username == *username {
                return Some(i);
            }
            i = i + 1;
        }
        None
    }

    /// Point lookup by unique user id.
    pub fn find_user_by_id(&self, id: u64) -> (r: Option<usize>)
        ensures
            r matches Some(i) ==> i < self.users@.len() && self.users@[i as int].id == id,
            r is None ==> !has_user_with_id(self.users@, id),
    {
        let n = self.users.len();
        let mut i: usize = 0;
        while i < n
            invariant
                n == self.users@.len(),
                i <= n,
                forall|j: int| 0 <= j < i ==> (#[trigger] self.users@[j]).id != id,
            decreases n - i,
        {
            if self.users[i].id == id {
                return Some(i);
            }
            i = i + 1;
        }
        None
    }

    /// Looks a token up by exact token string and type, and returns it only
    /// if it is live at `now`. Absent, consumed and expired are one and the
    /// same `None`: the three conditions are indistinguishable to callers.
    pub fn find_live(&self, token: &String, tt: TokenType, now: i64) -> (r: Option<usize>)
        ensures
            r matches Some(i) ==> {
                &&& i < self.tokens@.len()
                &&& token_match(self.tokens@[i as int], token@, tt)
                &&& is_live(self.tokens@[i as int], now)
            },
            r is None ==> !has_live_match(self.tokens@, token@, tt, now),
    {
        let n = self.tokens.len();
        let mut i: usize = 0;
        while i < n
            invariant
                n == self.tokens@.len(),
                i <= n,
                forall|j: int|
                    0 <= j < i
                        ==> !(token_match(#[trigger] self.tokens@[j], token@, tt)
                            && is_live(self.tokens@[j], now)),
            decreases n - i,
        {
            let t = &self.tokens[i];
            if t.token == *token && t.token_type == tt && t.used_at.is_none() && now < t.expires_at {
                return Some(i);
            }
            i = i + 1;
        }
        None
    }

    /// Creates a user record with a fresh id, `email_verified = false` and
    /// both timestamps at `now`. Callers establish uniqueness first; storage
    /// enforces it, so this narrow contract demands it.
    pub fn create_user(&mut self, username: String, email: String, password_hash: String, now: i64) -> (id: u64)
        requires
            old(self).wf(),
            old(self).next_user_id < u64::MAX,
            !has_user_with_email(old(self).users@, email@),
            !has_user_with_username(old(self).users@, username@),
        ensures
            final(self).wf(),
            id == old(self).next_user_id,
            final(self).users@ == old(self).users@.push((User {
                id: old(self).next_user_id,
                username: username,
                email: email,
                bio: None,
                image: None,
                password_hash: password_hash,
                email_verified: false,
                created_at: now,
                updated_at: now,
            })),
            final(self).tokens@ == old(self).tokens@,
            final(self).next_user_id == old(self).next_user_id + 1,
            final(self).next_token_id == old(self).next_token_id,
    {
        let id = self.next_user_id;
        let user = User {
            id,
            username,
            email,
            bio: None,
            image: None,
            password_hash,
            email_verified: false,
            created_at: now,
            updated_at: now,
        };
        self.users.push(user);
        self.next_user_id = id + 1;
        proof {
            let users = self.users@;
            let prev = old(self).users@;
            assert forall|i: int, j: int| 0 <= i < j < users.len() implies
                #[trigger] users[i].id != #[trigger] users[j].id
                && users[i].username@ != users[j].username@
                && users[i].email@ != users[j].email@ by {
                if j < prev.len() {
                    assert(users[i] == prev[i] && users[j] == prev[j]);
                } else {
                    assert(users[i] == prev[i]);
                    assert(prev[i].id < old(self).next_user_id);
                }
            }
            assert forall|i: int| 0 <= i < self.tokens@.len() implies
                has_user_with_id(self.users@, (#[trigger] self.tokens@[i]).user_id) by {
                assert(has_user_with_id(prev, self.tokens@[i].user_id));
                let w = choose|k: int| 0 <= k < prev.len()
                    && (#[trigger] prev[k]).id == self.tokens@[i].user_id;
                assert(users[w] == prev[w]);
            }
        }
        id
    }

    /// Marks every not-yet-consumed token of the pair `(user_id, tt)` as
    /// used at `now`: the eager invalidation that precedes every issuance.
    pub fn invalidate_tokens(&mut self, user_id: u64, tt: TokenType, now: i64)
        requires
            old(self).wf(),
        ensures
            final(self).wf(),
            final(self).tokens@.len() == old(self).tokens@.len(),
            forall|i: int|
                0 <= i < old(self).tokens@.len()
                    ==> final(self).tokens@[i] == spec_invalidated(
                        #[trigger] old(self).tokens@[i], user_id, tt, now),
            final(self).users@ == old(self).users@,
            final(self).next_user_id == old(self).next_user_id,
            final(self).next_token_id == old(self).next_token_id,
            forall|i: int|
                0 <= i < final(self).tokens@.len()
                    && (#[trigger] final(self).tokens@[i]).user_id == user_id
                    && final(self).tokens@[i].token_type == tt
                    ==> final(self).tokens@[i].used_at is Some,
    {
        let n = self.tokens.len();
        let mut i: usize = 0;
        while i < n
            invariant
                n == self.tokens@.len(),
                i <= n,
                forall|j: int|
                    0 <= j < i ==> self.tokens@[j] == spec_invalidated(
                        #[trigger] old(self).tokens@[j], user_id, tt, now),
                forall|j: int| i <= j < n ==> self.tokens@[j] == #[trigger] old(self).tokens@[j],
                self.users@ == old(self).users@,
                self.next_user_id == old(self).next_user_id,
                self.next_token_id == old(self).next_token_id,
            decreases n - i,
        {
            if self.tokens[i].user_id == user_id && self.tokens[i].token_type == tt
                && self.tokens[i].used_at.is_none() {
                self.tokens[i].used_at = Some(now);
            }
            i = i + 1;
        }
        proof {
            assert forall|j: int|
                0 <= j < self.tokens@.len()
                    && (#[trigger] self.tokens@[j]).user_id == user_id
                    && self.tokens@[j].token_type == tt
                implies self.tokens@[j].used_at is Some by {
                assert(self.tokens@[j] == spec_invalidated(old(self).tokens@[j], user_id, tt, now));
            }
            lemma_invalidation_preserves_wf(*old(self), *self, user_id, tt, now);
        }
    }

    /// Persists a fresh token of the pair `(user_id, tt)` with a fresh id.
    /// The pair must have been invalidated first. A collision of the opaque
    /// token string with a stored one is the storage unique-constraint
    /// failure, surfaced as `Err` — vanishingly rare, never silent.
    pub fn insert_token(&mut self, user_id: u64, token: String, tt: TokenType, expires_at: i64, now: i64) -> (r: Result<u64, ()>)
        requires
            old(self).wf(),
            old(self).next_token_id < u64::MAX,
            has_user_with_id(old(self).users@, user_id),
            forall|i: int|
                0 <= i < old(self).tokens@.len()
                    && (#[trigger] old(self).tokens@[i]).user_id == user_id
                    && old(self).tokens@[i].token_type == tt
                    ==> old(self).tokens@[i].used_at is Some,
        ensures
            final(self).wf(),
            final(self).users@ == old(self).users@,
            final(self).next_user_id == old(self).next_user_id,
            r matches Err(_) ==> *final(self) == *old(self)
                && (exists|i: int|
                    0 <= i < old(self).tokens@.len()
                        && (#[trigger] old(self).tokens@[i]).token@ == token@),
            r matches Ok(id) ==> {
                &&& id == old(self).next_token_id
                &&& forall|i: int|
                    0 <= i < old(self).tokens@.len()
                        ==> (#[trigger] old(self).tokens@[i]).token@ != token@
                &&& final(self).tokens@ == old(self).tokens@.push((AuthToken {
                    id: old(self).next_token_id,
                    user_id: user_id,
                    token: token,
                    token_type: tt,
                    expires_at: expires_at,
                    used_at: None,
                    created_at: now,
                }))
                &&& final(self).next_token_id == old(self).next_token_id + 1
            },
    {
        let n = self.tokens.len();
        let mut i: usize = 0;
        while i < n
            invariant
                n == self.tokens@.len(),
                i <= n,
                *self == *old(self),
                old(self).wf(),
                forall|j: int| 0 <= j < i ==> (#[trigger] self.tokens@[j]).token@ != token@,
            decreases n - i,
        {
            if self.tokens[i].token == token {
                proof {
                    assert(old(self).tokens@[i as int].token@ == token@);
                }
                return Err(());
            }
            i = i + 1;
        }
        let id = self.next_token_id;
        let t = AuthToken {
            id,
            user_id,
            token,
            token_type: tt,
            expires_at,
            used_at: None,
            created_at: now,
        };
        self.tokens.push(t);
        self.next_token_id = id + 1;
        proof {
            let toks = self.tokens@;
            let prev = old(self).tokens@;
            assert forall|a: int, b: int| 0 <= a < b < toks.len() implies
                #[trigger] toks[a].id != #[trigger] toks[b].id
                && toks[a].token@ != toks[b].token@ by {
                if b < prev.len() {
                    assert(toks[a] == prev[a] && toks[b] == prev[b]);
                } else {
                    assert(toks[a] == prev[a]);
                    assert(prev[a].id < old(self).next_token_id);
                }
            }
            assert forall|a: int, b: int|
                0 <= a < b < toks.len()
                    && (#[trigger] toks[a]).user_id == (#[trigger] toks[b]).user_id
                    && toks[a].token_type == toks[b].token_type
                implies !(toks[a].used_at is None && toks[b].used_at is None) by {
                if b < prev.len() {
                    assert(toks[a] == prev[a] && toks[b] == prev[b]);
                } else {
                    assert(toks[a] == prev[a]);
                }
            }
            assert forall|a: int| 0 <= a < toks.len() implies
                has_user_with_id(self.users@, (#[trigger] toks[a]).user_id) by {
                if a < prev.len() {
                    assert(toks[a] == prev[a]);
                    assert(has_user_with_id(old(self).users@, prev[a].user_id));
                }
            }
        }
        Ok(id)
    }

    /// Consumes the token at `idx`: sets `used_at = now`. Irreversible; the
    /// caller runs it in the same transaction as the effect it gates.
    pub fn consume(&mut self, idx: usize, now: i64)
        requires
            old(self).wf(),
            idx < old(self).tokens@.len(),
        ensures
            final(self).wf(),
            final(self).tokens@ == old(self).tokens@.update(
                idx as int, spec_consumed(old(self).tokens@[idx as int], now)),
            final(self).users@ == old(self).users@,
            final(self).next_user_id == old(self).next_user_id,
            final(self).next_token_id == old(self).next_token_id,
    {
        self.tokens[idx].used_at = Some(now);
        proof {
            let toks = self.tokens@;
            let prev = old(self).tokens@;
            assert forall|a: int, b: int| 0 <= a < b < toks.len() implies
                #[trigger] toks[a].id != #[trigger] toks[b].id
                && toks[a].token@ != toks[b].token@ by {
                assert(toks[a].id == prev[a].id && toks[b].id == prev[b].id);
                assert(toks[a].token@ == prev[a].token@ && toks[b].token@ == prev[b].token@);
            }
            assert forall|a: int, b: int|
                0 <= a < b < toks.len()
                    && (#[trigger] toks[a]).user_id == (#[trigger] toks[b]).user_id
                    && toks[a].token_type == toks[b].token_type
                implies !(toks[a].used_at is None && toks[b].used_at is None) by {
                assert(prev[a].user_id == toks[a].user_id && prev[b].user_id == toks[b].user_id);
                if toks[a].used_at is None && toks[b].used_at is None {
                    assert(prev[a].used_at is None && prev[b].used_at is None);
                }
            }
            assert forall|a: int| 0 <= a < toks.len() implies
                has_user_with_id(self.users@, (#[trigger] toks[a]).user_id) by {
                assert(toks[a].user_id == prev[a].user_id);
                assert(has_user_with_id(old(self).users@, prev[a].user_id));
            }
        }
    }

    /// Confirms email ownership for the user at `idx` and touches the
    /// update timestamp.
    pub fn set_email_verified(&mut self, idx: usize, now: i64)
        requires
            old(self).wf(),
            idx < old(self).users@.len(),
        ensures
            final(self).wf(),
            final(self).users@ == old(self).users@.update(
                idx as int, spec_verified(old(self).users@[idx as int], now)),
            final(self).tokens@ == old(self).tokens@,
            final(self).next_user_id == old(self).next_user_id,
            final(self).next_token_id == old(self).next_token_id,
    {
        self.users[idx].email_verified = true;
        self.users[idx].updated_at = now;
        proof {
            lemma_user_field_update_preserves_wf(*old(self), *self);
        }
    }

    /// Overwrites the stored credential digest for the user at `idx` and
    /// touches the update timestamp.
    pub fn set_password_hash(&mut self, idx: usize, new_hash: String, now: i64)
        requires
            old(self).wf(),
            idx < old(self).users@.len(),
        ensures
            final(self).wf(),
            final(self).users@ == old(self).users@.update(
                idx as int, spec_rehashed(old(self).users@[idx as int], new_hash, now)),
            final(self).tokens@ == old(self).tokens@,
            final(self).next_user_id == old(self).next_user_id,
            final(self).next_token_id == old(self).next_token_id,
    {
        self.users[idx].password_hash = new_hash;
        self.users[idx].updated_at = now;
        proof {
            lemma_user_field_update_preserves_wf(*old(self), *self);
        }
    }
}

/// Unique emails make the email lookup index canonical: any index that
/// matches is the chosen one.
pub proof fn lemma_email_match_unique(users: Seq<User>, email: Seq<char>, i: int)
    requires
        emails_unique(users),
        0 <= i < users.len(),
        users[i].email@ == email,
    ensures
        has_user_with_email(users, email),
        email_idx(users, email) == i,
{
    assert(has_user_with_email(users, email));
    let j = email_idx(users, email);
    assert(0 <= j < users.len() && users[j].email@ == email);
    if i < j {
        assert(users[i].email@ != users[j].email@);
        assert(false);
    } else if j < i {
        assert(users[j].email@ != users[i].email@);
        assert(false);
    }
}

/// Unique ids make the id lookup index canonical.
pub proof fn lemma_user_id_match_unique(users: Seq<User>, id: u64, i: int)
    requires
        user_ids_unique(users),
        0 <= i < users.len(),
        users[i].id == id,
    ensures
        has_user_with_id(users, id),
        user_idx(users, id) == i,
{
    assert(has_user_with_id(users, id));
    let j = user_idx(users, id);
    assert(0 <= j < users.len() && users[j].id == id);
    if i < j {
        assert(users[i].id != users[j].id);
        assert(false);
    } else if j < i {
        assert(users[j].id != users[i].id);
        assert(false);
    }
}

/// Unique token strings make the live lookup index canonical.
pub proof fn lemma_live_match_unique(tokens: Seq<AuthToken>, s: Seq<char>, tt: TokenType, now: i64, i: int)
    requires
        token_strings_unique(tokens),
        0 <= i < tokens.len(),
        token_match(tokens[i], s, tt),
        is_live(tokens[i], now),
    ensures
        has_live_match(tokens, s, tt, now),
        live_match_idx(tokens, s, tt, now) == i,
{
    assert(has_live_match(tokens, s, tt, now));
    let j = live_match_idx(tokens, s, tt, now);
    assert(0 <= j < tokens.len() && token_match(tokens[j], s, tt) && is_live(tokens[j], now));
    if i < j {
        assert(tokens[i].token@ != tokens[j].token@);
        assert(false);
    } else if j < i {
        assert(tokens[j].token@ != tokens[i].token@);
        assert(false);
    }
}

/// Pointwise invalidation keeps every identifying field, so the store
/// invariant survives the pass.
proof fn lemma_invalidation_preserves_wf(prev: AuthDb, cur: AuthDb, user_id: u64, tt: TokenType, now: i64)
    requires
        prev.wf(),
        cur.tokens@.len() == prev.tokens@.len(),
        forall|i: int|
            0 <= i < prev.tokens@.len()
                ==> cur.tokens@[i] == spec_invalidated(#[trigger] prev.tokens@[i], user_id, tt, now),
        cur.users@ == prev.users@,
        cur.next_user_id == prev.next_user_id,
        cur.next_token_id == prev.next_token_id,
    ensures
        cur.wf(),
{
    let toks = cur.tokens@;
    let old_toks = prev.tokens@;
    assert forall|a: int, b: int| 0 <= a < b < toks.len() implies
        #[trigger] toks[a].id != #[trigger] toks[b].id
        && toks[a].token@ != toks[b].token@ by {
        assert(toks[a].id == old_toks[a].id && toks[b].id == old_toks[b].id);
        assert(toks[a].token@ == old_toks[a].token@ && toks[b].token@ == old_toks[b].token@);
    }
    assert forall|a: int| 0 <= a < toks.len() implies (#[trigger] toks[a]).id < cur.next_token_id by {
        assert(toks[a].id == old_toks[a].id);
    }
    assert forall|a: int, b: int|
        0 <= a < b < toks.len()
            && (#[trigger] toks[a]).user_id == (#[trigger] toks[b]).user_id
            && toks[a].token_type == toks[b].token_type
        implies !(toks[a].used_at is None && toks[b].used_at is None) by {
        assert(old_toks[a].user_id == toks[a].user_id && old_toks[b].user_id == toks[b].user_id);
        assert(old_toks[a].token_type == toks[a].token_type);
        assert(old_toks[b].token_type == toks[b].token_type);
        if toks[a].used_at is None && toks[b].used_at is None {
            assert(old_toks[a].used_at is None && old_toks[b].used_at is None);
        }
    }
    assert forall|a: int| 0 <= a < toks.len() implies
        has_user_with_id(cur.users@, (#[trigger] toks[a]).user_id) by {
        assert(toks[a].user_id == old_toks[a].user_id);
        assert(has_user_with_id(prev.users@, old_toks[a].user_id));
    }
}

/// A user update that keeps id, username and email keeps the invariant.
proof fn lemma_user_field_update_preserves_wf(prev: AuthDb, cur: AuthDb)
    requires
        prev.wf(),
        cur.users@.len() == prev.users@.len(),
        forall|i: int|
            0 <= i < prev.users@.len() ==> {
                &&& (#[trigger] cur.users@[i]).id == prev.users@[i].id
                &&& cur.users@[i].username@ == prev.users@[i].username@
                &&& cur.users@[i].email@ == prev.users@[i].email@
            },
        cur.tokens@ == prev.tokens@,
        cur.next_user_id == prev.next_user_id,
        cur.next_token_id == prev.next_token_id,
    ensures
        cur.wf(),
{
    assert forall|a: int, b: int| 0 <= a < b < cur.users@.len() implies
        #[trigger] cur.users@[a].id != #[trigger] cur.users@[b].id
        && cur.users@[a].username@ != cur.users@[b].username@
        && cur.users@[a].email@ != cur.users@[b].email@ by {
        assert(cur.users@[a].id == prev.users@[a].id);
        assert(cur.users@[b].id == prev.users@[b].id);
        assert(cur.users@[a].username@ == prev.users@[a].username@);
        assert(cur.users@[b].username@ == prev.users@[b].username@);
        assert(cur.users@[a].email@ == prev.users@[a].email@);
        assert(cur.users@[b].email@ == prev.users@[b].email@);
    }
    assert forall|a: int| 0 <= a < cur.users@.len() implies
        (#[trigger] cur.users@[a]).id < cur.next_user_id by {
        assert(cur.users@[a].id == prev.users@[a].id);
    }
    assert forall|a: int| 0 <= a < cur.tokens@.len() implies
        has_user_with_id(cur.users@, (#[trigger] cur.tokens@[a]).user_id) by {
        assert(has_user_with_id(prev.users@, cur.tokens@[a].user_id));
        let w = choose|k: int| 0 <= k < prev.users@.len()
            && (#[trigger] prev.users@[k]).id == cur.tokens@[a].user_id;
        assert(cur.users@[w].id == prev.users@[w].id);
    }
}

} // verus!
