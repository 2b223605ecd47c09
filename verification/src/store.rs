//! An in-memory model of the relational identity store: the rows the engine
//! reads and writes, the uniqueness invariants the store's constraints
//! enforce, and the verified query and mutation operations the engine runs
//! inside transactions.
//!
//! A live transaction works on a value of [`Store`]; the retry coordinator
//! commits the new value or discards it, which models rollback.

use vstd::prelude::*;
use vstd::pervasive::VecAdditionalExecFns;

use crate::crypto::{bytes_eq, clone_bytes, str_eq};

verus! {

/// A user account row.
pub struct UserRow {
    /// The user's opaque unique ID.
    pub id: Vec<u8>,
    /// The user's normalized, unique email address.
    pub email: String,
    /// The user's display name.
    pub name: String,
    /// The Argon2 hash of the user's password, in PHC string format.
    pub password_hash: String,
    /// When the user accepted the terms of service, as a Unix timestamp.
    pub accepted_terms_at: i64,
}

/// A sign-in session row, keyed by the hash of a token that is never stored
/// in plaintext.
pub struct SessionRow {
    /// The unsalted hash of the session token.
    pub token_hash: Vec<u8>,
    /// The owning user's ID.
    pub user_id: Vec<u8>,
}

/// A second-factor (TOTP) configuration row; at most one per user.
pub struct TotpRow {
    /// The owning user's ID.
    pub user_id: Vec<u8>,
    /// The verified shared secret, once enrollment is confirmed.
    pub secret: Option<Vec<u8>>,
    /// The unverified shared secret during enrollment.
    pub unverified_secret: Option<Vec<u8>>,
    /// The most recently accepted one-time code (anti-replay window).
    pub otp_used_last: Option<String>,
    /// The one-time code accepted before that (anti-replay window).
    pub otp_used_2nd_to_last: Option<String>,
    /// The user's unused single-use backup codes.
    pub unused_backup_codes: Vec<String>,
}

/// An email verification request for a new user, consumed on sign-up.
pub struct UnverifiedUserRow {
    /// The unsalted hash of the verification token.
    pub token_hash: Vec<u8>,
    /// The email address to verify.
    pub email: String,
    /// The salted hash of the short verification code, once one was issued.
    pub code_hash: Option<String>,
    /// When the prospective user accepted the terms, as a Unix timestamp.
    pub accepted_terms_at: i64,
}

/// A password reset request row; at most one per user.
pub struct PasswordResetRow {
    /// The unsalted hash of the reset token.
    pub token_hash: Vec<u8>,
    /// The owning user's ID.
    pub user_id: Vec<u8>,
}

/// An email change request row; at most one per user.
pub struct EmailChangeRow {
    /// The unsalted hash of the verification token.
    pub token_hash: Vec<u8>,
    /// The owning user's ID.
    pub user_id: Vec<u8>,
    /// The new email address to change to.
    pub email: String,
}

/// The recorded hashes of the terms of service and privacy notice.
pub struct TermsRow {
    /// The digest of the terms of service.
    pub terms_hash: Vec<u8>,
    /// The digest of the privacy notice.
    pub privacy_hash: Vec<u8>,
}

/// The identity store: every table the engine touches.
pub struct Store {
    /// User accounts.
    pub users: Vec<UserRow>,
    /// Sign-in sessions.
    pub sessions: Vec<SessionRow>,
    /// Second-factor configurations.
    pub totp: Vec<TotpRow>,
    /// Email verification requests of prospective users.
    pub unverified_users: Vec<UnverifiedUserRow>,
    /// Password reset requests.
    pub password_resets: Vec<PasswordResetRow>,
    /// Email change requests.
    pub email_change_requests: Vec<EmailChangeRow>,
    /// The recorded terms and privacy notice digests, if any.
    pub terms: Option<TermsRow>,
}

impl Store {
    /// The store's well-formedness: the uniqueness its constraints enforce.
    pub open spec fn wf(&self) -> bool {
        &&& forall|i: int, j: int|
            0 <= i < j < self.users@.len() ==> (#[trigger] self.users@[i]).id@ != (
            #[trigger] self.users@[j]).id@
        &&& forall|i: int, j: int|
            0 <= i < j < self.users@.len() ==> (#[trigger] self.users@[i]).email@ != (
            #[trigger] self.users@[j]).email@
        &&& forall|i: int, j: int|
            0 <= i < j < self.sessions@.len() ==> (#[trigger] self.sessions@[i]).token_hash@ != (
            #[trigger] self.sessions@[j]).token_hash@
        &&& forall|i: int, j: int|
            0 <= i < j < self.totp@.len() ==> (#[trigger] self.totp@[i]).user_id@ != (
            #[trigger] self.totp@[j]).user_id@
        &&& forall|i: int, j: int|
            0 <= i < j < self.unverified_users@.len() ==> (
            #[trigger] self.unverified_users@[i]).token_hash@ != (
            #[trigger] self.unverified_users@[j]).token_hash@
        &&& forall|i: int, j: int|
            0 <= i < j < self.unverified_users@.len() ==> (
            #[trigger] self.unverified_users@[i]).email@ != (
            #[trigger] self.unverified_users@[j]).email@
        &&& forall|i: int, j: int|
            0 <= i < j < self.password_resets@.len() ==> (
            #[trigger] self.password_resets@[i]).token_hash@ != (
            #[trigger] self.password_resets@[j]).token_hash@
        &&& forall|i: int, j: int|
            0 <= i < j < self.password_resets@.len() ==> (
            #[trigger] self.password_resets@[i]).user_id@ != (
            #[trigger] self.password_resets@[j]).user_id@
        &&& forall|i: int, j: int|
            0 <= i < j < self.email_change_requests@.len() ==> (
            #[trigger] self.email_change_requests@[i]).token_hash@ != (
            #[trigger] self.email_change_requests@[j]).token_hash@
        &&& forall|i: int, j: int|
            0 <= i < j < self.email_change_requests@.len() ==> (
            #[trigger] self.email_change_requests@[i]).user_id@ != (
            #[trigger] self.email_change_requests@[j]).user_id@
    }

    /// An empty store.
    pub fn new() -> (r: Store)
        ensures
            r.wf(),
            r.users@.len() == 0,
            r.sessions@.len() == 0,
            r.totp@.len() == 0,
            r.unverified_users@.len() == 0,
            r.password_resets@.len() == 0,
            r.email_change_requests@.len() == 0,
            r.terms is None,
    {
        Store {
            users: Vec::new(),
            sessions: Vec::new(),
            totp: Vec::new(),
            unverified_users: Vec::new(),
            password_resets: Vec::new(),
            email_change_requests: Vec::new(),
            terms: None,
        }
    }

    /// Finds the index of the user with an email address.
    pub fn find_user_by_email(&self, email: &str) -> (r: Option<usize>)
        ensures
            match r {
                Some(i) => i < self.users@.len() && self.users@[i as int].email@ == email@,
                None => forall|i: int|
                    0 <= i < self.users@.len() ==> (#[trigger] self.users@[i]).email@ != email@,
            },
    {
        let mut i: usize = 0;
        while i < self.users.len()
            invariant
                0 <= i <= self.users@.len(),
                forall|j: int| 0 <= j < i ==> (#[trigger] self.users@[j]).email@ != email@,
            decreases self.users@.len() - i,
        {
            if str_eq(self.users[i].email.as_str(), email) {
                return Some(i);
            }
            i = i + 1;
        }
        None
    }

    /// Finds the index of the user with an ID.
    pub fn find_user_by_id(&self, id: &Vec<u8>) -> (r: Option<usize>)
        ensures
            match r {
                Some(i) => i < self.users@.len() && self.users@[i as int].id@ == id@,
                None => forall|i: int|
                    0 <= i < self.users@.len() ==> (#[trigger] self.users@[i]).id@ != id@,
            },
    {
        let mut i: usize = 0;
        while i < self.users.len()
            invariant
                0 <= i <= self.users@.len(),
                forall|j: int| 0 <= j < i ==> (#[trigger] self.users@[j]).id@ != id@,
            decreases self.users@.len() - i,
        {
            if bytes_eq(&self.users[i].id, id) {
                return Some(i);
            }
            i = i + 1;
        }
        None
    }

    /// Finds the index of the session with a token hash.
    pub fn find_session(&self, token_hash: &Vec<u8>) -> (r: Option<usize>)
        ensures
            match r {
                Some(i) => i < self.sessions@.len() && self.sessions@[i as int].token_hash@
                    == token_hash@,
                None => forall|i: int|
                    0 <= i < self.sessions@.len() ==> (#[trigger] self.sessions@[i]).token_hash@
                        != token_hash@,
            },
    {
        let mut i: usize = 0;
        while i < self.sessions.len()
            invariant
                0 <= i <= self.sessions@.len(),
                forall|j: int|
                    0 <= j < i ==> (#[trigger] self.sessions@[j]).token_hash@ != token_hash@,
            decreases self.sessions@.len() - i,
        {
            if bytes_eq(&self.sessions[i].token_hash, token_hash) {
                return Some(i);
            }
            i = i + 1;
        }
        None
    }

    /// Finds the index of a user's second-factor configuration.
    pub fn find_totp(&self, user_id: &Vec<u8>) -> (r: Option<usize>)
        ensures
            match r {
                Some(i) => i < self.totp@.len() && self.totp@[i as int].user_id@ == user_id@,
                None => forall|i: int|
                    0 <= i < self.totp@.len() ==> (#[trigger] self.totp@[i]).user_id@ != user_id@,
            },
    {
        let mut i: usize = 0;
        while i < self.totp.len()
            invariant
                0 <= i <= self.totp@.len(),
                forall|j: int| 0 <= j < i ==> (#[trigger] self.totp@[j]).user_id@ != user_id@,
            decreases self.totp@.len() - i,
        {
            if bytes_eq(&self.totp[i].user_id, user_id) {
                return Some(i);
            }
            i = i + 1;
        }
        None
    }

    /// Finds the index of the email verification request with a token hash.
    pub fn find_unverified_by_token_hash(&self, token_hash: &Vec<u8>) -> (r: Option<usize>)
        ensures
            match r {
                Some(i) => i < self.unverified_users@.len()
                    && self.unverified_users@[i as int].token_hash@ == token_hash@,
                None => forall|i: int|
                    0 <= i < self.unverified_users@.len() ==> (
                    #[trigger] self.unverified_users@[i]).token_hash@ != token_hash@,
            },
    {
        let mut i: usize = 0;
        while i < self.unverified_users.len()
            invariant
                0 <= i <= self.unverified_users@.len(),
                forall|j: int|
                    0 <= j < i ==> (#[trigger] self.unverified_users@[j]).token_hash@
                        != token_hash@,
            decreases self.unverified_users@.len() - i,
        {
            if bytes_eq(&self.unverified_users[i].token_hash, token_hash) {
                return Some(i);
            }
            i = i + 1;
        }
        None
    }

    /// Finds the index of the email verification request for an email.
    pub fn find_unverified_by_email(&self, email: &str) -> (r: Option<usize>)
        ensures
            match r {
                Some(i) => i < self.unverified_users@.len()
                    && self.unverified_users@[i as int].email@ == email@,
                None => forall|i: int|
                    0 <= i < self.unverified_users@.len() ==> (
                    #[trigger] self.unverified_users@[i]).email@ != email@,
            },
    {
        let mut i: usize = 0;
        while i < self.unverified_users.len()
            invariant
                0 <= i <= self.unverified_users@.len(),
                forall|j: int|
                    0 <= j < i ==> (#[trigger] self.unverified_users@[j]).email@ != email@,
            decreases self.unverified_users@.len() - i,
        {
            if str_eq(self.unverified_users[i].email.as_str(), email) {
                return Some(i);
            }
            i = i + 1;
        }
        None
    }

    /// Finds the index of the password reset request with a token hash.
    pub fn find_password_reset(&self, token_hash: &Vec<u8>) -> (r: Option<usize>)
        ensures
            match r {
                Some(i) => i < self.password_resets@.len()
                    && self.password_resets@[i as int].token_hash@ == token_hash@,
                None => forall|i: int|
                    0 <= i < self.password_resets@.len() ==> (
                    #[trigger] self.password_resets@[i]).token_hash@ != token_hash@,
            },
    {
        let mut i: usize = 0;
        while i < self.password_resets.len()
            invariant
                0 <= i <= self.password_resets@.len(),
                forall|j: int|
                    0 <= j < i ==> (#[trigger] self.password_resets@[j]).token_hash@
                        != token_hash@,
            decreases self.password_resets@.len() - i,
        {
            if bytes_eq(&self.password_resets[i].token_hash, token_hash) {
                return Some(i);
            }
            i = i + 1;
        }
        None
    }

    /// Finds the index of a user's password reset request.
    pub fn find_password_reset_by_user(&self, user_id: &Vec<u8>) -> (r: Option<usize>)
        ensures
            match r {
                Some(i) => i < self.password_resets@.len()
                    && self.password_resets@[i as int].user_id@ == user_id@,
                None => forall|i: int|
                    0 <= i < self.password_resets@.len() ==> (
                    #[trigger] self.password_resets@[i]).user_id@ != user_id@,
            },
    {
        let mut i: usize = 0;
        while i < self.password_resets.len()
            invariant
                0 <= i <= self.password_resets@.len(),
                forall|j: int|
                    0 <= j < i ==> (#[trigger] self.password_resets@[j]).user_id@ != user_id@,
            decreases self.password_resets@.len() - i,
        {
            if bytes_eq(&self.password_resets[i].user_id, user_id) {
                return Some(i);
            }
            i = i + 1;
        }
        None
    }

    /// Finds the index of the email change request with a token hash.
    pub fn find_email_change(&self, token_hash: &Vec<u8>) -> (r: Option<usize>)
        ensures
            match r {
                Some(i) => i < self.email_change_requests@.len()
                    && self.email_change_requests@[i as int].token_hash@ == token_hash@,
                None => forall|i: int|
                    0 <= i < self.email_change_requests@.len() ==> (
                    #[trigger] self.email_change_requests@[i]).token_hash@ != token_hash@,
            },
    {
        let mut i: usize = 0;
        while i < self.email_change_requests.len()
            invariant
                0 <= i <= self.email_change_requests@.len(),
                forall|j: int|
                    0 <= j < i ==> (#[trigger] self.email_change_requests@[j]).token_hash@
                        != token_hash@,
            decreases self.email_change_requests@.len() - i,
        {
            if bytes_eq(&self.email_change_requests[i].token_hash, token_hash) {
                return Some(i);
            }
            i = i + 1;
        }
        None
    }

    /// Finds the index of a user's email change request.
    pub fn find_email_change_by_user(&self, user_id: &Vec<u8>) -> (r: Option<usize>)
        ensures
            match r {
                Some(i) => i < self.email_change_requests@.len()
                    && self.email_change_requests@[i as int].user_id@ == user_id@,
                None => forall|i: int|
                    0 <= i < self.email_change_requests@.len() ==> (
                    #[trigger] self.email_change_requests@[i]).user_id@ != user_id@,
            },
    {
        let mut i: usize = 0;
        while i < self.email_change_requests.len()
            invariant
                0 <= i <= self.email_change_requests@.len(),
                forall|j: int|
                    0 <= j < i ==> (#[trigger] self.email_change_requests@[j]).user_id@
                        != user_id@,
            decreases self.email_change_requests@.len() - i,
        {
            if bytes_eq(&self.email_change_requests[i].user_id, user_id) {
                return Some(i);
            }
            i = i + 1;
        }
        None
    }

    /// Finds the index of the user owning the session with a token hash, as
    /// the join of sessions and users on the user ID.
    pub fn find_user_by_session(&self, token_hash: &Vec<u8>) -> (r: Option<usize>)
        requires
            self.wf(),
        ensures
            match r {
                Some(i) => exists|s: int|
                    {
                        &&& 0 <= s < self.sessions@.len()
                        &&& (#[trigger] self.sessions@[s]).token_hash@ == token_hash@
                        &&& i < self.users@.len()
                        &&& self.users@[i as int].id@ == self.sessions@[s].user_id@
                    },
                None => forall|s: int, i: int|
                    0 <= s < self.sessions@.len() && 0 <= i < self.users@.len() && (
                    #[trigger] self.sessions@[s]).token_hash@ == token_hash@ ==> (
                    #[trigger] self.users@[i]).id@ != self.sessions@[s].user_id@,
            },
    {
        match self.find_session(token_hash) {
            Some(s) => {
                let r = self.find_user_by_id(&self.sessions[s].user_id);
                proof {
                    if r is None {
                        assert(forall|s2: int, i: int|
                            0 <= s2 < self.sessions@.len() && 0 <= i < self.users@.len() && (
                            #[trigger] self.sessions@[s2]).token_hash@ == token_hash@ ==> s2 == s
                                && (#[trigger] self.users@[i]).id@ != self.sessions@[s2].user_id@);
                    }
                }
                r
            },
            None => None,
        }
    }
}

/// Elements of a filtered sequence come from the original sequence.
pub proof fn lemma_filter_sub<T>(s: Seq<T>, pred: spec_fn(T) -> bool)
    ensures
        forall|x: T| #[trigger] s.filter(pred).contains(x) ==> s.contains(x),
    decreases s.len(),
{
    reveal(Seq::filter);
    if s.len() > 0 {
        let s0 = s.drop_last();
        lemma_filter_sub(s0, pred);
        assert forall|x: T| #[trigger] s.filter(pred).contains(x) implies s.contains(x) by {
            if s0.filter(pred).contains(x) {
                assert(s0.contains(x));
                let i = choose|i: int| 0 <= i < s0.len() && s0[i] == x;
                assert(s[i] == x);
            } else {
                assert(x == s.last());
                assert(s[s.len() - 1] == x);
            }
        }
    }
}

/// Filtering a sequence whose elements have pairwise distinct keys leaves
/// elements with pairwise distinct keys.
pub proof fn lemma_filter_distinct_keys<T>(
    s: Seq<T>,
    pred: spec_fn(T) -> bool,
    key: spec_fn(T) -> Seq<u8>,
)
    requires
        forall|i: int, j: int| 0 <= i < j < s.len() ==> key(#[trigger] s[i]) != key(#[trigger] s[j]),
    ensures
        forall|i: int, j: int|
            0 <= i < j < s.filter(pred).len() ==> key(#[trigger] s.filter(pred)[i]) != key(
                #[trigger] s.filter(pred)[j],
            ),
    decreases s.len(),
{
    reveal(Seq::filter);
    if s.len() > 0 {
        let s0 = s.drop_last();
        let f0 = s0.filter(pred);
        lemma_filter_distinct_keys(s0, pred, key);
        lemma_filter_sub(s0, pred);
        if pred(s.last()) {
            assert forall|i: int, j: int|
                0 <= i < j < s.filter(pred).len() implies key(#[trigger] s.filter(pred)[i]) != key(
                #[trigger] s.filter(pred)[j],
            ) by {
                let f = s.filter(pred);
                if j < f.len() - 1 {
                    assert(f[i] == f0[i] && f[j] == f0[j]);
                } else {
                    assert(f[j] == s.last());
                    assert(f[i] == f0[i]);
                    assert(f0.contains(f0[i]));
                    assert(s0.contains(f0[i]));
                    let w = choose|w: int| 0 <= w < s0.len() && s0[w] == f0[i];
                    assert(s[w] == f0[i]);
                    assert(key(s[w]) != key(s[s.len() - 1]));
                }
            }
        }
    }
}

/// Distinct string keys, stated the same way for rows keyed by text.
pub proof fn lemma_filter_distinct_str_keys<T>(
    s: Seq<T>,
    pred: spec_fn(T) -> bool,
    key: spec_fn(T) -> Seq<char>,
)
    requires
        forall|i: int, j: int| 0 <= i < j < s.len() ==> key(#[trigger] s[i]) != key(#[trigger] s[j]),
    ensures
        forall|i: int, j: int|
            0 <= i < j < s.filter(pred).len() ==> key(#[trigger] s.filter(pred)[i]) != key(
                #[trigger] s.filter(pred)[j],
            ),
    decreases s.len(),
{
    reveal(Seq::filter);
    if s.len() > 0 {
        let s0 = s.drop_last();
        let f0 = s0.filter(pred);
        lemma_filter_distinct_str_keys(s0, pred, key);
        lemma_filter_sub(s0, pred);
        if pred(s.last()) {
            assert forall|i: int, j: int|
                0 <= i < j < s.filter(pred).len() implies key(#[trigger] s.filter(pred)[i]) != key(
                #[trigger] s.filter(pred)[j],
            ) by {
                let f = s.filter(pred);
                if j < f.len() - 1 {
                    assert(f[i] == f0[i] && f[j] == f0[j]);
                } else {
                    assert(f[j] == s.last());
                    assert(f[i] == f0[i]);
                    assert(f0.contains(f0[i]));
                    assert(s0.contains(f0[i]));
                    let w = choose|w: int| 0 <= w < s0.len() && s0[w] == f0[i];
                    assert(s[w] == f0[i]);
                    assert(key(s[w]) != key(s[s.len() - 1]));
                }
            }
        }
    }
}

/// Compares an optionally recorded string with a submitted one, treating an
/// absent record as distinct (the store's `IS DISTINCT FROM` semantics).
pub fn opt_string_ne(a: &Option<String>, b: &str) -> (r: bool)
    ensures
        r == match *a {
            Some(s) => s@ != b@,
            None => true,
        },
{
    match a {
        Some(s) => !str_eq(s.as_str(), b),
        None => true,
    }
}

/// Copies an optional string.
pub fn clone_opt_string(a: &Option<String>) -> (r: Option<String>)
    ensures
        r == *a,
{
    match a {
        Some(s) => Some(s.clone()),
        None => None,
    }
}

/// Copies an optional byte vector.
pub fn clone_opt_bytes(a: &Option<Vec<u8>>) -> (r: Option<Vec<u8>>)
    ensures
        match *a {
            Some(s) => r is Some && r->0@ == s@,
            None => r is None,
        },
{
    match a {
        Some(s) => Some(clone_bytes(s)),
        None => None,
    }
}

/// The number of sessions owned by a user.
pub open spec fn count_user_sessions(sessions: Seq<SessionRow>, user_id: Seq<u8>) -> nat
    decreases sessions.len(),
{
    if sessions.len() == 0 {
        0
    } else {
        count_user_sessions(sessions.drop_last(), user_id) + if sessions.last().user_id@
            == user_id {
            1nat
        } else {
            0nat
        }
    }
}

impl Store {
    /// Inserts a session row; the store's unique constraint demands a fresh
    /// token hash.
    pub fn insert_session(&mut self, row: SessionRow)
        requires
            old(self).wf(),
            forall|i: int|
                0 <= i < old(self).sessions@.len() ==> (
                #[trigger] old(self).sessions@[i]).token_hash@ != row.token_hash@,
        ensures
            final(self).wf(),
            final(self).sessions@ == old(self).sessions@.push(row),
            final(self).users@ == old(self).users@,
            final(self).totp@ == old(self).totp@,
            final(self).unverified_users@ == old(self).unverified_users@,
            final(self).password_resets@ == old(self).password_resets@,
            final(self).email_change_requests@ == old(self).email_change_requests@,
            final(self).terms == old(self).terms,
    {
        self.sessions.push(row);
    }

    /// Deletes the session with a token hash, reporting whether one existed.
    pub fn delete_session(&mut self, token_hash: &Vec<u8>) -> (deleted: bool)
        requires
            old(self).wf(),
        ensures
            final(self).wf(),
            final(self).users@ == old(self).users@,
            final(self).totp@ == old(self).totp@,
            final(self).unverified_users@ == old(self).unverified_users@,
            final(self).password_resets@ == old(self).password_resets@,
            final(self).email_change_requests@ == old(self).email_change_requests@,
            final(self).terms == old(self).terms,
            deleted ==> exists|i: int|
                {
                    &&& 0 <= i < old(self).sessions@.len()
                    &&& (#[trigger] old(self).sessions@[i]).token_hash@ == token_hash@
                    &&& final(self).sessions@ == old(self).sessions@.remove(i)
                },
            !deleted ==> final(self).sessions@ == old(self).sessions@ && forall|i: int|
                0 <= i < old(self).sessions@.len() ==> (
                #[trigger] old(self).sessions@[i]).token_hash@ != token_hash@,
    {
        match self.find_session(token_hash) {
            Some(i) => {
                let ghost pre = self.sessions@;
                self.sessions.remove(i);
                proof {
                    assert forall|a: int, b: int|
                        0 <= a < b < self.sessions@.len() implies (
                    #[trigger] self.sessions@[a]).token_hash@ != (
                    #[trigger] self.sessions@[b]).token_hash@ by {
                        let a0 = if a < i { a } else { a + 1 };
                        let b0 = if b < i { b } else { b + 1 };
                        assert(self.sessions@[a] == pre[a0] && self.sessions@[b] == pre[b0]);
                    }
                }
                true
            },
            None => false,
        }
    }

    /// Deletes all of a user's sessions. This is a conventionally expected
    /// security feature whenever a user's password is changed.
    pub fn delete_sessions_for_user(&mut self, user_id: &Vec<u8>)
        requires
            old(self).wf(),
        ensures
            final(self).wf(),
            final(self).users@ == old(self).users@,
            final(self).totp@ == old(self).totp@,
            final(self).unverified_users@ == old(self).unverified_users@,
            final(self).password_resets@ == old(self).password_resets@,
            final(self).email_change_requests@ == old(self).email_change_requests@,
            final(self).terms == old(self).terms,
            forall|i: int|
                0 <= i < final(self).sessions@.len() ==> (
                #[trigger] final(self).sessions@[i]).user_id@ != user_id@,
            forall|i: int|
                0 <= i < old(self).sessions@.len() && (#[trigger] old(self).sessions@[i]).user_id@
                    != user_id@ ==> final(self).sessions@.contains(old(self).sessions@[i]),
            forall|i: int|
                0 <= i < final(self).sessions@.len() ==> old(self).sessions@.contains(
                    #[trigger] final(self).sessions@[i],
                ),
    {
        let ghost uid = user_id@;
        let ghost keep = |s: SessionRow| s.user_id@ != uid;
        let ghost orig = self.sessions@;
        let ghost ousers = self.users@;
        let ghost ototp = self.totp@;
        let ghost ouu = self.unverified_users@;
        let ghost opr = self.password_resets@;
        let ghost oecr = self.email_change_requests@;
        let ghost oterms = self.terms;
        let mut i: usize = 0;
        let ghost k: int = 0;
        while i < self.sessions.len()
            invariant
                0 <= i <= self.sessions@.len(),
                0 <= k <= orig.len(),
                self.users@ == ousers,
                self.totp@ == ototp,
                self.unverified_users@ == ouu,
                self.password_resets@ == opr,
                self.email_change_requests@ == oecr,
                self.terms == oterms,
                uid == user_id@,
                keep == (|s: SessionRow| s.user_id@ != uid),
                self.sessions@.subrange(0, i as int) =~= orig.subrange(0, k).filter(keep),
                i as int == orig.subrange(0, k).filter(keep).len(),
                self.sessions@.skip(i as int) =~= orig.skip(k),
            decreases orig.len() - k,
        {
            proof {
                assert(self.sessions@.skip(i as int).len() == orig.skip(k).len());
                assert(k < orig.len());
                assert(self.sessions@.skip(i as int)[0] == orig.skip(k)[0]);
                assert(self.sessions@[i as int] == orig[k]);
            }
            let ghost pre = self.sessions@;
            let ghost prefix = orig.subrange(0, k);
            if bytes_eq(&self.sessions[i].user_id, user_id) {
                self.sessions.remove(i);
                proof {
                    reveal(Seq::filter);
                    assert(orig.subrange(0, k + 1).drop_last() =~= prefix);
                    assert(orig.subrange(0, k + 1).last() == orig[k]);
                    assert(!keep(orig[k]));
                    assert(orig.subrange(0, k + 1).filter(keep) =~= prefix.filter(keep));
                    pre.remove_ensures(i as int);
                    assert(self.sessions@.subrange(0, i as int) =~= pre.subrange(0, i as int));
                    assert forall|j: int| 0 <= j < self.sessions@.len() - i implies #[trigger] self.sessions@.skip(
                        i as int,
                    )[j] == orig.skip(k + 1)[j] by {
                        assert(self.sessions@[i + j] == pre[i + j + 1]);
                        assert(pre.skip(i as int)[j + 1] == orig.skip(k)[j + 1]);
                    }
                    assert(self.sessions@.skip(i as int) =~= orig.skip(k + 1));
                }
                proof {
                    k = k + 1;
                }
            } else {
                proof {
                    reveal(Seq::filter);
                    assert(orig.subrange(0, k + 1).drop_last() =~= prefix);
                    assert(orig.subrange(0, k + 1).last() == orig[k]);
                    assert(keep(orig[k]));
                    assert(orig.subrange(0, k + 1).filter(keep) =~= prefix.filter(keep).push(
                        orig[k],
                    ));
                    assert(self.sessions@.subrange(0, i as int + 1) =~= self.sessions@.subrange(
                        0,
                        i as int,
                    ).push(self.sessions@[i as int]));
                    assert forall|j: int| 0 <= j < self.sessions@.len() - i - 1 implies #[trigger] self.sessions@.skip(
                        i as int + 1,
                    )[j] == orig.skip(k + 1)[j] by {
                        assert(self.sessions@.skip(i as int)[j + 1] == orig.skip(k)[j + 1]);
                    }
                    assert(self.sessions@.skip(i as int + 1) =~= orig.skip(k + 1));
                }
                i = i + 1;
                proof {
                    k = k + 1;
                }
            }
        }
        proof {
            assert(orig.subrange(0, orig.len() as int) =~= orig);
            assert(self.sessions@.skip(i as int).len() == 0);
            assert(self.sessions@ =~= self.sessions@.subrange(0, i as int));
            assert(self.sessions@ =~= orig.filter(keep));
            lemma_filter_sub(orig, keep);
            lemma_filter_distinct_keys(orig, keep, |s: SessionRow| s.token_hash@);
            broadcast use vstd::seq_lib::group_filter_ensures;
            assert forall|m: int| 0 <= m < self.sessions@.len() implies orig.contains(
                #[trigger] self.sessions@[m],
            ) by {
                assert(orig.filter(keep)[m] == self.sessions@[m]);
                assert(orig.filter(keep).contains(self.sessions@[m]));
            }
        }
    }

    /// Deletes all of a user's sessions except the one with the given token
    /// hash, used when the user changes their password from a live session.
    pub fn delete_other_sessions_for_user(&mut self, user_id: &Vec<u8>, token_hash: &Vec<u8>)
        requires
            old(self).wf(),
        ensures
            final(self).wf(),
            final(self).users@ == old(self).users@,
            final(self).totp@ == old(self).totp@,
            final(self).unverified_users@ == old(self).unverified_users@,
            final(self).password_resets@ == old(self).password_resets@,
            final(self).email_change_requests@ == old(self).email_change_requests@,
            final(self).terms == old(self).terms,
            forall|i: int|
                0 <= i < final(self).sessions@.len() ==> (
                #[trigger] final(self).sessions@[i]).user_id@ != user_id@
                    || final(self).sessions@[i].token_hash@ == token_hash@,
            forall|i: int|
                0 <= i < old(self).sessions@.len()
                    && ((#[trigger] old(self).sessions@[i]).user_id@ != user_id@
                    || old(self).sessions@[i].token_hash@ == token_hash@)
                    ==> final(self).sessions@.contains(old(self).sessions@[i]),
            forall|i: int|
                0 <= i < final(self).sessions@.len() ==> old(self).sessions@.contains(
                    #[trigger] final(self).sessions@[i],
                ),
    {
        let ghost uid = user_id@;
        let ghost th = token_hash@;
        let ghost keep = |s: SessionRow| s.user_id@ != uid || s.token_hash@ == th;
        let ghost orig = self.sessions@;
        let ghost ousers = self.users@;
        let ghost ototp = self.totp@;
        let ghost ouu = self.unverified_users@;
        let ghost opr = self.password_resets@;
        let ghost oecr = self.email_change_requests@;
        let ghost oterms = self.terms;
        let mut i: usize = 0;
        let ghost k: int = 0;
        while i < self.sessions.len()
            invariant
                0 <= i <= self.sessions@.len(),
                0 <= k <= orig.len(),
                self.users@ == ousers,
                self.totp@ == ototp,
                self.unverified_users@ == ouu,
                self.password_resets@ == opr,
                self.email_change_requests@ == oecr,
                self.terms == oterms,
                uid == user_id@,
                th == token_hash@,
                keep == (|s: SessionRow| s.user_id@ != uid || s.token_hash@ == th),
                self.sessions@.subrange(0, i as int) =~= orig.subrange(0, k).filter(keep),
                i as int == orig.subrange(0, k).filter(keep).len(),
                self.sessions@.skip(i as int) =~= orig.skip(k),
            decreases orig.len() - k,
        {
            proof {
                assert(self.sessions@.skip(i as int).len() == orig.skip(k).len());
                assert(k < orig.len());
                assert(self.sessions@.skip(i as int)[0] == orig.skip(k)[0]);
                assert(self.sessions@[i as int] == orig[k]);
            }
            let ghost pre = self.sessions@;
            let ghost prefix = orig.subrange(0, k);
            let is_user = bytes_eq(&self.sessions[i].user_id, user_id);
            let is_current = bytes_eq(&self.sessions[i].token_hash, token_hash);
            if is_user && !is_current {
                self.sessions.remove(i);
                proof {
                    reveal(Seq::filter);
                    assert(orig.subrange(0, k + 1).drop_last() =~= prefix);
                    assert(orig.subrange(0, k + 1).last() == orig[k]);
                    assert(!keep(orig[k]));
                    assert(orig.subrange(0, k + 1).filter(keep) =~= prefix.filter(keep));
                    pre.remove_ensures(i as int);
                    assert(self.sessions@.subrange(0, i as int) =~= pre.subrange(0, i as int));
                    assert forall|j: int| 0 <= j < self.sessions@.len() - i implies #[trigger] self.sessions@.skip(
                        i as int,
                    )[j] == orig.skip(k + 1)[j] by {
                        assert(self.sessions@[i + j] == pre[i + j + 1]);
                        assert(pre.skip(i as int)[j + 1] == orig.skip(k)[j + 1]);
                    }
                    assert(self.sessions@.skip(i as int) =~= orig.skip(k + 1));
                }
                proof {
                    k = k + 1;
                }
            } else {
                proof {
                    reveal(Seq::filter);
                    assert(orig.subrange(0, k + 1).drop_last() =~= prefix);
                    assert(orig.subrange(0, k + 1).last() == orig[k]);
                    assert(keep(orig[k]));
                    assert(orig.subrange(0, k + 1).filter(keep) =~= prefix.filter(keep).push(
                        orig[k],
                    ));
                    assert(self.sessions@.subrange(0, i as int + 1) =~= self.sessions@.subrange(
                        0,
                        i as int,
                    ).push(self.sessions@[i as int]));
                    assert forall|j: int| 0 <= j < self.sessions@.len() - i - 1 implies #[trigger] self.sessions@.skip(
                        i as int + 1,
                    )[j] == orig.skip(k + 1)[j] by {
                        assert(self.sessions@.skip(i as int)[j + 1] == orig.skip(k)[j + 1]);
                    }
                    assert(self.sessions@.skip(i as int + 1) =~= orig.skip(k + 1));
                }
                i = i + 1;
                proof {
                    k = k + 1;
                }
            }
        }
        proof {
            assert(orig.subrange(0, orig.len() as int) =~= orig);
            assert(self.sessions@.skip(i as int).len() == 0);
            assert(self.sessions@ =~= self.sessions@.subrange(0, i as int));
            assert(self.sessions@ =~= orig.filter(keep));
            lemma_filter_sub(orig, keep);
            lemma_filter_distinct_keys(orig, keep, |s: SessionRow| s.token_hash@);
            broadcast use vstd::seq_lib::group_filter_ensures;
            assert forall|m: int| 0 <= m < self.sessions@.len() implies orig.contains(
                #[trigger] self.sessions@[m],
            ) by {
                assert(orig.filter(keep)[m] == self.sessions@[m]);
                assert(orig.filter(keep).contains(self.sessions@[m]));
            }
        }
    }

    /// Counts a user's sessions.
    pub fn count_sessions_for_user(&self, user_id: &Vec<u8>) -> (r: usize)
        ensures
            r == count_user_sessions(self.sessions@, user_id@),
    {
        let mut count: usize = 0;
        let mut i: usize = 0;
        while i < self.sessions.len()
            invariant
                0 <= i <= self.sessions@.len(),
                count <= i,
                count == count_user_sessions(self.sessions@.subrange(0, i as int), user_id@),
            decreases self.sessions@.len() - i,
        {
            let ghost prefix = self.sessions@.subrange(0, i as int);
            if bytes_eq(&self.sessions[i].user_id, user_id) {
                count = count + 1;
            }
            proof {
                assert(self.sessions@.subrange(0, i as int + 1).drop_last() =~= prefix);
            }
            i = i + 1;
        }
        proof {
            assert(self.sessions@.subrange(0, self.sessions@.len() as int) =~= self.sessions@);
        }
        count
    }

    /// Checks that no two sessions share a token hash (the store constraint
    /// the engine relies on), by inspection.
    pub fn sessions_distinct(&self) -> (r: bool)
        ensures
            r == forall|i: int, j: int|
                0 <= i < j < self.sessions@.len() ==> (#[trigger] self.sessions@[i]).token_hash@
                    != (#[trigger] self.sessions@[j]).token_hash@,
    {
        let mut i: usize = 0;
        while i < self.sessions.len()
            invariant
                0 <= i <= self.sessions@.len(),
                forall|a: int, b: int|
                    0 <= a < b < self.sessions@.len() && a < i ==> (
                    #[trigger] self.sessions@[a]).token_hash@ != (
                    #[trigger] self.sessions@[b]).token_hash@,
            decreases self.sessions@.len() - i,
        {
            let mut j: usize = i + 1;
            while j < self.sessions.len()
                invariant
                    0 <= i < j <= self.sessions@.len(),
                    forall|b: int|
                        i < b < j ==> (#[trigger] self.sessions@[b]).token_hash@ != self.sessions@[
                            i as int
                        ].token_hash@,
                decreases self.sessions@.len() - j,
            {
                if bytes_eq(&self.sessions[i].token_hash, &self.sessions[j].token_hash) {
                    return false;
                }
                j = j + 1;
            }
            i = i + 1;
        }
        true
    }
}

/// Filtering keeps a sequence whole when every element satisfies the
/// predicate.
pub proof fn lemma_filter_all_kept<T>(s: Seq<T>, pred: spec_fn(T) -> bool)
    requires
        forall|i: int| 0 <= i < s.len() ==> pred(#[trigger] s[i]),
    ensures
        s.filter(pred) == s,
    decreases s.len(),
{
    reveal(Seq::filter);
    if s.len() > 0 {
        lemma_filter_all_kept(s.drop_last(), pred);
        assert(s.filter(pred) =~= s);
    } else {
        assert(s.filter(pred) =~= s);
    }
}

/// Whether a list of codes holds one equal to the submitted code.
pub fn codes_contain(codes: &Vec<String>, otp: &str) -> (r: bool)
    ensures
        r == exists|c: int| 0 <= c < codes@.len() && (#[trigger] codes@[c])@ == otp@,
{
    let mut i: usize = 0;
    while i < codes.len()
        invariant
            0 <= i <= codes@.len(),
            forall|c: int| 0 <= c < i ==> (#[trigger] codes@[c])@ != otp@,
        decreases codes@.len() - i,
    {
        if str_eq(codes[i].as_str(), otp) {
            return true;
        }
        i = i + 1;
    }
    false
}

/// Whether a second-factor row's unused backup codes contain a code.
pub open spec fn backup_codes_contain(row: TotpRow, otp: Seq<char>) -> bool {
    exists|c: int|
        0 <= c < row.unused_backup_codes@.len() && (#[trigger] row.unused_backup_codes@[c])@ == otp
}

/// How a second-factor row changes when a backup code is consumed: every
/// occurrence of the code leaves the set and everything else stays.
pub open spec fn backup_code_removed(old_row: TotpRow, new_row: TotpRow, otp: Seq<char>) -> bool {
    &&& new_row.user_id@ == old_row.user_id@
    &&& new_row.secret == old_row.secret
    &&& new_row.unverified_secret == old_row.unverified_secret
    &&& new_row.otp_used_last == old_row.otp_used_last
    &&& new_row.otp_used_2nd_to_last == old_row.otp_used_2nd_to_last
    &&& forall|c: int|
        0 <= c < new_row.unused_backup_codes@.len() ==> (
        #[trigger] new_row.unused_backup_codes@[c])@ != otp
    &&& forall|c: int|
        0 <= c < old_row.unused_backup_codes@.len() && (
        #[trigger] old_row.unused_backup_codes@[c])@ != otp
            ==> new_row.unused_backup_codes@.contains(old_row.unused_backup_codes@[c])
    &&& forall|c: int|
        0 <= c < new_row.unused_backup_codes@.len() ==> old_row.unused_backup_codes@.contains(
            #[trigger] new_row.unused_backup_codes@[c],
        )
}

/// Whether a submitted one-time code equals either recorded anti-replay
/// marker; an absent marker matches nothing.
pub open spec fn otp_is_replay(row: TotpRow, otp: Seq<char>) -> bool {
    ||| (row.otp_used_last matches Some(s) && s@ == otp)
    ||| (row.otp_used_2nd_to_last matches Some(s) && s@ == otp)
}

/// How a second-factor row changes when the anti-replay window shifts: the
/// last-used marker moves to second-to-last and the submitted code becomes
/// last-used; everything else stays.
pub open spec fn otp_window_shifted(old_row: TotpRow, new_row: TotpRow, otp: Seq<char>) -> bool {
    &&& new_row.user_id@ == old_row.user_id@
    &&& new_row.secret == old_row.secret
    &&& new_row.unverified_secret == old_row.unverified_secret
    &&& new_row.unused_backup_codes@ == old_row.unused_backup_codes@
    &&& new_row.otp_used_2nd_to_last == old_row.otp_used_last
    &&& new_row.otp_used_last matches Some(s) && s@ == otp
}

/// The outcome of attempting to shift a user's anti-replay window.
pub enum OtpWindowShift {
    /// The user has no second-factor configuration row.
    NoConfig,
    /// The submitted code equals a recorded marker; nothing changed.
    Replayed,
    /// The window shifted; carries the row's verified secret, if any.
    Shifted(Option<Vec<u8>>),
}

impl Store {
    /// Inserts a user row; the store's constraints demand a fresh ID and a
    /// fresh email.
    pub fn insert_user(&mut self, row: UserRow)
        requires
            old(self).wf(),
            forall|i: int|
                0 <= i < old(self).users@.len() ==> (#[trigger] old(self).users@[i]).id@ != row.id@,
            forall|i: int|
                0 <= i < old(self).users@.len() ==> (#[trigger] old(self).users@[i]).email@
                    != row.email@,
        ensures
            final(self).wf(),
            final(self).users@ == old(self).users@.push(row),
            final(self).sessions@ == old(self).sessions@,
            final(self).totp@ == old(self).totp@,
            final(self).unverified_users@ == old(self).unverified_users@,
            final(self).password_resets@ == old(self).password_resets@,
            final(self).email_change_requests@ == old(self).email_change_requests@,
            final(self).terms == old(self).terms,
    {
        self.users.push(row);
    }

    /// Replaces a user's password hash.
    pub fn set_password_hash(&mut self, i: usize, password_hash: String)
        requires
            old(self).wf(),
            i < old(self).users@.len(),
        ensures
            final(self).wf(),
            final(self).users@ == old(self).users@.update(i as int, final(self).users@[i as int]),
            final(self).users@[i as int].id@ == old(self).users@[i as int].id@,
            final(self).users@[i as int].email@ == old(self).users@[i as int].email@,
            final(self).users@[i as int].name@ == old(self).users@[i as int].name@,
            final(self).users@[i as int].accepted_terms_at == old(self).users@[i as int].accepted_terms_at,
            final(self).users@[i as int].password_hash@ == password_hash@,
            final(self).sessions@ == old(self).sessions@,
            final(self).totp@ == old(self).totp@,
            final(self).unverified_users@ == old(self).unverified_users@,
            final(self).password_resets@ == old(self).password_resets@,
            final(self).email_change_requests@ == old(self).email_change_requests@,
            final(self).terms == old(self).terms,
    {
        let ghost pre = self.users@;
        let mut row = self.users.remove(i);
        row.password_hash = password_hash;
        self.users.insert(i, row);
        proof {
            pre.remove_ensures(i as int);
            assert(self.users@ =~= pre.update(i as int, self.users@[i as int]));
        }
    }

    /// Replaces a user's display name.
    pub fn set_name(&mut self, i: usize, name: String)
        requires
            old(self).wf(),
            i < old(self).users@.len(),
        ensures
            final(self).wf(),
            final(self).users@ == old(self).users@.update(i as int, final(self).users@[i as int]),
            final(self).users@[i as int].id@ == old(self).users@[i as int].id@,
            final(self).users@[i as int].email@ == old(self).users@[i as int].email@,
            final(self).users@[i as int].password_hash@ == old(self).users@[i as int].password_hash@,
            final(self).users@[i as int].accepted_terms_at == old(self).users@[i as int].accepted_terms_at,
            final(self).users@[i as int].name@ == name@,
            final(self).sessions@ == old(self).sessions@,
            final(self).totp@ == old(self).totp@,
            final(self).unverified_users@ == old(self).unverified_users@,
            final(self).password_resets@ == old(self).password_resets@,
            final(self).email_change_requests@ == old(self).email_change_requests@,
            final(self).terms == old(self).terms,
    {
        let ghost pre = self.users@;
        let mut row = self.users.remove(i);
        row.name = name;
        self.users.insert(i, row);
        proof {
            pre.remove_ensures(i as int);
            assert(self.users@ =~= pre.update(i as int, self.users@[i as int]));
        }
    }

    /// Replaces a user's email address; the store's constraints demand that
    /// no other user holds it.
    pub fn set_email(&mut self, i: usize, email: String)
        requires
            old(self).wf(),
            i < old(self).users@.len(),
            forall|j: int|
                0 <= j < old(self).users@.len() && j != i ==> (
                #[trigger] old(self).users@[j]).email@ != email@,
        ensures
            final(self).wf(),
            final(self).users@ == old(self).users@.update(i as int, final(self).users@[i as int]),
            final(self).users@[i as int].id@ == old(self).users@[i as int].id@,
            final(self).users@[i as int].name@ == old(self).users@[i as int].name@,
            final(self).users@[i as int].password_hash@ == old(self).users@[i as int].password_hash@,
            final(self).users@[i as int].accepted_terms_at == old(self).users@[i as int].accepted_terms_at,
            final(self).users@[i as int].email@ == email@,
            final(self).sessions@ == old(self).sessions@,
            final(self).totp@ == old(self).totp@,
            final(self).unverified_users@ == old(self).unverified_users@,
            final(self).password_resets@ == old(self).password_resets@,
            final(self).email_change_requests@ == old(self).email_change_requests@,
            final(self).terms == old(self).terms,
    {
        let ghost pre = self.users@;
        let mut row = self.users.remove(i);
        row.email = email;
        self.users.insert(i, row);
        proof {
            pre.remove_ensures(i as int);
            assert(self.users@ =~= pre.update(i as int, self.users@[i as int]));
        }
    }

    /// Inserts a second-factor configuration row; the store's constraint
    /// demands that the user has none yet.
    pub fn insert_totp(&mut self, row: TotpRow)
        requires
            old(self).wf(),
            forall|i: int|
                0 <= i < old(self).totp@.len() ==> (#[trigger] old(self).totp@[i]).user_id@
                    != row.user_id@,
        ensures
            final(self).wf(),
            final(self).totp@ == old(self).totp@.push(row),
            final(self).users@ == old(self).users@,
            final(self).sessions@ == old(self).sessions@,
            final(self).unverified_users@ == old(self).unverified_users@,
            final(self).password_resets@ == old(self).password_resets@,
            final(self).email_change_requests@ == old(self).email_change_requests@,
            final(self).terms == old(self).terms,
    {
        self.totp.push(row);
    }

    /// Deletes a user's second-factor configuration, reporting whether one
    /// existed.
    pub fn delete_totp_for_user(&mut self, user_id: &Vec<u8>) -> (deleted: bool)
        requires
            old(self).wf(),
        ensures
            final(self).wf(),
            final(self).users@ == old(self).users@,
            final(self).sessions@ == old(self).sessions@,
            final(self).unverified_users@ == old(self).unverified_users@,
            final(self).password_resets@ == old(self).password_resets@,
            final(self).email_change_requests@ == old(self).email_change_requests@,
            final(self).terms == old(self).terms,
            deleted ==> exists|i: int|
                {
                    &&& 0 <= i < old(self).totp@.len()
                    &&& (#[trigger] old(self).totp@[i]).user_id@ == user_id@
                    &&& final(self).totp@ == old(self).totp@.remove(i)
                },
            !deleted ==> final(self).totp@ == old(self).totp@ && forall|i: int|
                0 <= i < old(self).totp@.len() ==> (#[trigger] old(self).totp@[i]).user_id@
                    != user_id@,
    {
        match self.find_totp(user_id) {
            Some(i) => {
                let ghost pre = self.totp@;
                self.totp.remove(i);
                proof {
                    pre.remove_ensures(i as int);
                    assert forall|a: int, b: int| 0 <= a < b < self.totp@.len() implies (
                    #[trigger] self.totp@[a]).user_id@ != (#[trigger] self.totp@[b]).user_id@ by {
                        let a0 = if a < i { a } else { a + 1 };
                        let b0 = if b < i { b } else { b + 1 };
                        assert(self.totp@[a] == pre[a0] && self.totp@[b] == pre[b0]);
                    }
                }
                true
            },
            None => false,
        }
    }

    /// Deletes a user's second-factor configuration only if its enrollment
    /// is still unconfirmed, reporting whether a row was deleted.
    pub fn delete_unverified_totp_for_user(&mut self, user_id: &Vec<u8>) -> (deleted: bool)
        requires
            old(self).wf(),
        ensures
            final(self).wf(),
            final(self).users@ == old(self).users@,
            final(self).sessions@ == old(self).sessions@,
            final(self).unverified_users@ == old(self).unverified_users@,
            final(self).password_resets@ == old(self).password_resets@,
            final(self).email_change_requests@ == old(self).email_change_requests@,
            final(self).terms == old(self).terms,
            deleted ==> exists|i: int|
                {
                    &&& 0 <= i < old(self).totp@.len()
                    &&& (#[trigger] old(self).totp@[i]).user_id@ == user_id@
                    &&& old(self).totp@[i].unverified_secret is Some
                    &&& final(self).totp@ == old(self).totp@.remove(i)
                },
            !deleted ==> final(self).totp@ == old(self).totp@ && forall|i: int|
                0 <= i < old(self).totp@.len() && (#[trigger] old(self).totp@[i]).user_id@
                    == user_id@ ==> old(self).totp@[i].unverified_secret is None,
    {
        match self.find_totp(user_id) {
            Some(i) => {
                if self.totp[i].unverified_secret.is_some() {
                    let ghost pre = self.totp@;
                    self.totp.remove(i);
                    proof {
                        pre.remove_ensures(i as int);
                        assert forall|a: int, b: int| 0 <= a < b < self.totp@.len() implies (
                        #[trigger] self.totp@[a]).user_id@ != (
                        #[trigger] self.totp@[b]).user_id@ by {
                            let a0 = if a < i { a } else { a + 1 };
                            let b0 = if b < i { b } else { b + 1 };
                            assert(self.totp@[a] == pre[a0] && self.totp@[b] == pre[b0]);
                        }
                    }
                    true
                } else {
                    proof {
                        assert forall|j: int|
                            0 <= j < self.totp@.len() && (#[trigger] self.totp@[j]).user_id@
                                == user_id@ implies self.totp@[j].unverified_secret is None by {
                            if j != i {
                                assert(self.totp@[j].user_id@ != self.totp@[i as int].user_id@);
                            }
                        }
                    }
                    false
                }
            },
            None => false,
        }
    }

    /// Atomically removes a submitted backup code from a user's unused set,
    /// reporting whether it was present. A removed code can never satisfy
    /// this check again: it is single-use.
    pub fn consume_backup_code(&mut self, user_id: &Vec<u8>, otp: &str) -> (consumed: bool)
        requires
            old(self).wf(),
        ensures
            final(self).wf(),
            final(self).users@ == old(self).users@,
            final(self).sessions@ == old(self).sessions@,
            final(self).unverified_users@ == old(self).unverified_users@,
            final(self).password_resets@ == old(self).password_resets@,
            final(self).email_change_requests@ == old(self).email_change_requests@,
            final(self).terms == old(self).terms,
            consumed ==> exists|i: int|
                {
                    &&& 0 <= i < old(self).totp@.len()
                    &&& (#[trigger] old(self).totp@[i]).user_id@ == user_id@
                    &&& backup_codes_contain(old(self).totp@[i], otp@)
                    &&& final(self).totp@ == old(self).totp@.update(i, final(self).totp@[i])
                    &&& backup_code_removed(old(self).totp@[i], final(self).totp@[i], otp@)
                },
            !consumed ==> final(self).totp@ == old(self).totp@ && forall|i: int|
                0 <= i < old(self).totp@.len() && (#[trigger] old(self).totp@[i]).user_id@
                    == user_id@ ==> !backup_codes_contain(old(self).totp@[i], otp@),
    {
        let idx = match self.find_totp(user_id) {
            Some(i) => i,
            None => {
                return false;
            },
        };
        if !codes_contain(&self.totp[idx].unused_backup_codes, otp) {
            proof {
                assert forall|j: int|
                    0 <= j < self.totp@.len() && (#[trigger] self.totp@[j]).user_id@ == user_id@
                        implies !backup_codes_contain(self.totp@[j], otp@) by {
                    if j != idx {
                        assert(self.totp@[j].user_id@ != self.totp@[idx as int].user_id@);
                    }
                }
            }
            return false;
        }
        let ghost pre = self.totp@;
        let mut row = self.totp.remove(idx);
        let ghost orig_codes = row.unused_backup_codes@;
        let ghost keep = |c: String| c@ != otp@;
        let mut i: usize = 0;
        let ghost k: int = 0;
        while i < row.unused_backup_codes.len()
            invariant
                0 <= i <= row.unused_backup_codes@.len(),
                0 <= k <= orig_codes.len(),
                keep == (|c: String| c@ != otp@),
                row.unused_backup_codes@.subrange(0, i as int) =~= orig_codes.subrange(
                    0,
                    k,
                ).filter(keep),
                i as int == orig_codes.subrange(0, k).filter(keep).len(),
                row.unused_backup_codes@.skip(i as int) =~= orig_codes.skip(k),
                row.user_id == old(self).totp@[idx as int].user_id,
                row.secret == old(self).totp@[idx as int].secret,
                row.unverified_secret == old(self).totp@[idx as int].unverified_secret,
                row.otp_used_last == old(self).totp@[idx as int].otp_used_last,
                row.otp_used_2nd_to_last == old(self).totp@[idx as int].otp_used_2nd_to_last,
            decreases orig_codes.len() - k,
        {
            proof {
                assert(row.unused_backup_codes@.skip(i as int).len() == orig_codes.skip(k).len());
                assert(k < orig_codes.len());
                assert(row.unused_backup_codes@.skip(i as int)[0] == orig_codes.skip(k)[0]);
                assert(row.unused_backup_codes@[i as int] == orig_codes[k]);
            }
            let ghost pre_codes = row.unused_backup_codes@;
            let ghost prefix = orig_codes.subrange(0, k);
            if str_eq(row.unused_backup_codes[i].as_str(), otp) {
                row.unused_backup_codes.remove(i);
                proof {
                    reveal(Seq::filter);
                    pre_codes.remove_ensures(i as int);
                    assert(orig_codes.subrange(0, k + 1).drop_last() =~= prefix);
                    assert(orig_codes.subrange(0, k + 1).last() == orig_codes[k]);
                    assert(!keep(orig_codes[k]));
                    assert(orig_codes.subrange(0, k + 1).filter(keep) =~= prefix.filter(keep));
                    assert(row.unused_backup_codes@.subrange(0, i as int) =~= pre_codes.subrange(
                        0,
                        i as int,
                    ));
                    assert forall|j: int|
                        0 <= j < row.unused_backup_codes@.len() - i implies #[trigger] row.unused_backup_codes@.skip(
                        i as int,
                    )[j] == orig_codes.skip(k + 1)[j] by {
                        assert(row.unused_backup_codes@[i + j] == pre_codes[i + j + 1]);
                        assert(pre_codes.skip(i as int)[j + 1] == orig_codes.skip(k)[j + 1]);
                    }
                    assert(row.unused_backup_codes@.skip(i as int) =~= orig_codes.skip(k + 1));
                }
                proof {
                    k = k + 1;
                }
            } else {
                proof {
                    reveal(Seq::filter);
                    assert(orig_codes.subrange(0, k + 1).drop_last() =~= prefix);
                    assert(orig_codes.subrange(0, k + 1).last() == orig_codes[k]);
                    assert(keep(orig_codes[k]));
                    assert(orig_codes.subrange(0, k + 1).filter(keep) =~= prefix.filter(keep).push(
                        orig_codes[k],
                    ));
                    assert(row.unused_backup_codes@.subrange(0, i as int + 1)
                        =~= row.unused_backup_codes@.subrange(0, i as int).push(
                        row.unused_backup_codes@[i as int],
                    ));
                    assert forall|j: int|
                        0 <= j < row.unused_backup_codes@.len() - i - 1 implies #[trigger] row.unused_backup_codes@.skip(
                        i as int + 1,
                    )[j] == orig_codes.skip(k + 1)[j] by {
                        assert(row.unused_backup_codes@.skip(i as int)[j + 1] == orig_codes.skip(
                            k,
                        )[j + 1]);
                    }
                    assert(row.unused_backup_codes@.skip(i as int + 1) =~= orig_codes.skip(k + 1));
                }
                i = i + 1;
                proof {
                    k = k + 1;
                }
            }
        }
        proof {
            assert(orig_codes.subrange(0, orig_codes.len() as int) =~= orig_codes);
            assert(row.unused_backup_codes@ =~= row.unused_backup_codes@.subrange(0, i as int));
            assert(row.unused_backup_codes@ =~= orig_codes.filter(keep));
            lemma_filter_sub(orig_codes, keep);
            broadcast use vstd::seq_lib::group_filter_ensures;
            assert forall|m: int| 0 <= m < row.unused_backup_codes@.len() implies orig_codes.contains(
                #[trigger] row.unused_backup_codes@[m],
            ) by {
                assert(orig_codes.filter(keep)[m] == row.unused_backup_codes@[m]);
                assert(orig_codes.filter(keep).contains(row.unused_backup_codes@[m]));
            }
        }
        self.totp.insert(idx, row);
        proof {
            pre.remove_ensures(idx as int);
            assert(self.totp@ =~= pre.update(idx as int, self.totp@[idx as int]));
        }
        true
    }

    /// Atomically shifts a user's anti-replay window to record a submitted
    /// code, but only if the code differs from both recorded markers; the
    /// shift happens whether or not the code later proves cryptographically
    /// right, so a wrong code still consumes a window slot.
    pub fn shift_otp_window(&mut self, user_id: &Vec<u8>, otp: &str) -> (r: OtpWindowShift)
        requires
            old(self).wf(),
        ensures
            final(self).wf(),
            final(self).users@ == old(self).users@,
            final(self).sessions@ == old(self).sessions@,
            final(self).unverified_users@ == old(self).unverified_users@,
            final(self).password_resets@ == old(self).password_resets@,
            final(self).email_change_requests@ == old(self).email_change_requests@,
            final(self).terms == old(self).terms,
            match r {
                OtpWindowShift::NoConfig => final(self).totp@ == old(self).totp@ && forall|i: int|
                    0 <= i < old(self).totp@.len() ==> (#[trigger] old(self).totp@[i]).user_id@
                        != user_id@,
                OtpWindowShift::Replayed => final(self).totp@ == old(self).totp@ && exists|i: int|
                    0 <= i < old(self).totp@.len() && (#[trigger] old(self).totp@[i]).user_id@
                        == user_id@ && otp_is_replay(old(self).totp@[i], otp@),
                OtpWindowShift::Shifted(secret) => exists|i: int|
                    {
                        &&& 0 <= i < old(self).totp@.len()
                        &&& (#[trigger] old(self).totp@[i]).user_id@ == user_id@
                        &&& !otp_is_replay(old(self).totp@[i], otp@)
                        &&& final(self).totp@ == old(self).totp@.update(i, final(self).totp@[i])
                        &&& otp_window_shifted(old(self).totp@[i], final(self).totp@[i], otp@)
                        &&& match (secret, old(self).totp@[i].secret) {
                            (Some(s), Some(t)) => s@ == t@,
                            (None, None) => true,
                            _ => false,
                        }
                    },
            },
    {
        let idx = match self.find_totp(user_id) {
            Some(i) => i,
            None => {
                return OtpWindowShift::NoConfig;
            },
        };
        let replay_last = !opt_string_ne(&self.totp[idx].otp_used_last, otp);
        let replay_2nd = !opt_string_ne(&self.totp[idx].otp_used_2nd_to_last, otp);
        if replay_last || replay_2nd {
            return OtpWindowShift::Replayed;
        }
        let secret = clone_opt_bytes(&self.totp[idx].secret);
        let ghost pre = self.totp@;
        let mut row = self.totp.remove(idx);
        row.otp_used_2nd_to_last = row.otp_used_last;
        row.otp_used_last = Some(otp.to_owned());
        self.totp.insert(idx, row);
        proof {
            pre.remove_ensures(idx as int);
            assert(self.totp@ =~= pre.update(idx as int, self.totp@[idx as int]));
        }
        OtpWindowShift::Shifted(secret)
    }
}

impl Store {
    /// Consumes (deletes and returns) the email verification request for an
    /// email address, if one exists.
    pub fn take_unverified_by_email(&mut self, email: &str) -> (r: Option<UnverifiedUserRow>)
        requires
            old(self).wf(),
        ensures
            final(self).wf(),
            final(self).users@ == old(self).users@,
            final(self).sessions@ == old(self).sessions@,
            final(self).totp@ == old(self).totp@,
            final(self).password_resets@ == old(self).password_resets@,
            final(self).email_change_requests@ == old(self).email_change_requests@,
            final(self).terms == old(self).terms,
            match r {
                Some(row) => exists|i: int|
                    {
                        &&& 0 <= i < old(self).unverified_users@.len()
                        &&& (#[trigger] old(self).unverified_users@[i]).email@ == email@
                        &&& row == old(self).unverified_users@[i]
                        &&& final(self).unverified_users@ == old(self).unverified_users@.remove(i)
                    },
                None => final(self).unverified_users@ == old(self).unverified_users@ && forall|
                    i: int,
                |
                    0 <= i < old(self).unverified_users@.len() ==> (#[trigger] old(self).unverified_users@[i]).email@ != email@,
            },
    {
        match self.find_unverified_by_email(email) {
            Some(i) => {
                let ghost pre = self.unverified_users@;
                let row = self.unverified_users.remove(i);
                proof {
                    pre.remove_ensures(i as int);
                    assert forall|a: int, b: int|
                        0 <= a < b < self.unverified_users@.len() implies (
                    #[trigger] self.unverified_users@[a]).token_hash@ != (
                    #[trigger] self.unverified_users@[b]).token_hash@ && self.unverified_users@[a].email@
                        != self.unverified_users@[b].email@ by {
                        let a0 = if a < i { a } else { a + 1 };
                        let b0 = if b < i { b } else { b + 1 };
                        assert(self.unverified_users@[a] == pre[a0]
                            && self.unverified_users@[b] == pre[b0]);
                    }
                }
                Some(row)
            },
            None => None,
        }
    }

    /// Consumes (deletes and returns) the email verification request with a
    /// token hash, if one exists.
    pub fn take_unverified_by_token_hash(&mut self, token_hash: &Vec<u8>) -> (r: Option<
        UnverifiedUserRow,
    >)
        requires
            old(self).wf(),
        ensures
            final(self).wf(),
            final(self).users@ == old(self).users@,
            final(self).sessions@ == old(self).sessions@,
            final(self).totp@ == old(self).totp@,
            final(self).password_resets@ == old(self).password_resets@,
            final(self).email_change_requests@ == old(self).email_change_requests@,
            final(self).terms == old(self).terms,
            match r {
                Some(row) => exists|i: int|
                    {
                        &&& 0 <= i < old(self).unverified_users@.len()
                        &&& (#[trigger] old(self).unverified_users@[i]).token_hash@ == token_hash@
                        &&& row == old(self).unverified_users@[i]
                        &&& final(self).unverified_users@ == old(self).unverified_users@.remove(i)
                    },
                None => final(self).unverified_users@ == old(self).unverified_users@ && forall|
                    i: int,
                |
                    0 <= i < old(self).unverified_users@.len() ==> (#[trigger] old(self).unverified_users@[i]).token_hash@ != token_hash@,
            },
    {
        match self.find_unverified_by_token_hash(token_hash) {
            Some(i) => {
                let ghost pre = self.unverified_users@;
                let row = self.unverified_users.remove(i);
                proof {
                    pre.remove_ensures(i as int);
                    assert forall|a: int, b: int|
                        0 <= a < b < self.unverified_users@.len() implies (
                    #[trigger] self.unverified_users@[a]).token_hash@ != (
                    #[trigger] self.unverified_users@[b]).token_hash@ && self.unverified_users@[a].email@
                        != self.unverified_users@[b].email@ by {
                        let a0 = if a < i { a } else { a + 1 };
                        let b0 = if b < i { b } else { b + 1 };
                        assert(self.unverified_users@[a] == pre[a0]
                            && self.unverified_users@[b] == pre[b0]);
                    }
                }
                Some(row)
            },
            None => None,
        }
    }

    /// Inserts an email verification request; the store's constraints demand
    /// a fresh token hash and a fresh email.
    pub fn insert_unverified(&mut self, row: UnverifiedUserRow)
        requires
            old(self).wf(),
            forall|i: int|
                0 <= i < old(self).unverified_users@.len() ==> (#[trigger] old(self).unverified_users@[i]).token_hash@ != row.token_hash@,
            forall|i: int|
                0 <= i < old(self).unverified_users@.len() ==> (#[trigger] old(self).unverified_users@[i]).email@ != row.email@,
        ensures
            final(self).wf(),
            final(self).unverified_users@ == old(self).unverified_users@.push(row),
            final(self).users@ == old(self).users@,
            final(self).sessions@ == old(self).sessions@,
            final(self).totp@ == old(self).totp@,
            final(self).password_resets@ == old(self).password_resets@,
            final(self).email_change_requests@ == old(self).email_change_requests@,
            final(self).terms == old(self).terms,
    {
        self.unverified_users.push(row);
    }

    /// Replaces the verification code hash of the email verification request
    /// with a token hash, returning the request's email when one exists.
    pub fn set_unverified_code_hash(&mut self, token_hash: &Vec<u8>, code_hash: String) -> (r:
        Option<String>)
        requires
            old(self).wf(),
        ensures
            final(self).wf(),
            final(self).users@ == old(self).users@,
            final(self).sessions@ == old(self).sessions@,
            final(self).totp@ == old(self).totp@,
            final(self).password_resets@ == old(self).password_resets@,
            final(self).email_change_requests@ == old(self).email_change_requests@,
            final(self).terms == old(self).terms,
            match r {
                Some(email) => exists|i: int|
                    {
                        &&& 0 <= i < old(self).unverified_users@.len()
                        &&& (#[trigger] old(self).unverified_users@[i]).token_hash@ == token_hash@
                        &&& final(self).unverified_users@ == old(self).unverified_users@.update(
                            i,
                            final(self).unverified_users@[i],
                        )
                        &&& final(self).unverified_users@[i].token_hash@ == old(self).unverified_users@[i].token_hash@
                        &&& final(self).unverified_users@[i].email@ == old(self).unverified_users@[i].email@
                        &&& final(self).unverified_users@[i].accepted_terms_at == old(self).unverified_users@[i].accepted_terms_at
                        &&& final(self).unverified_users@[i].code_hash matches Some(h) && h@
                            == code_hash@
                        &&& email@ == old(self).unverified_users@[i].email@
                    },
                None => final(self).unverified_users@ == old(self).unverified_users@ && forall|
                    i: int,
                |
                    0 <= i < old(self).unverified_users@.len() ==> (#[trigger] old(self).unverified_users@[i]).token_hash@ != token_hash@,
            },
    {
        match self.find_unverified_by_token_hash(token_hash) {
            Some(i) => {
                let ghost pre = self.unverified_users@;
                let mut row = self.unverified_users.remove(i);
                let email = row.email.clone();
                row.code_hash = Some(code_hash);
                self.unverified_users.insert(i, row);
                proof {
                    pre.remove_ensures(i as int);
                    assert(self.unverified_users@ =~= pre.update(
                        i as int,
                        self.unverified_users@[i as int],
                    ));
                }
                Some(email)
            },
            None => None,
        }
    }

    /// Deletes a user's password reset request, if any, which expires it.
    pub fn delete_password_resets_for_user(&mut self, user_id: &Vec<u8>)
        requires
            old(self).wf(),
        ensures
            final(self).wf(),
            final(self).users@ == old(self).users@,
            final(self).sessions@ == old(self).sessions@,
            final(self).totp@ == old(self).totp@,
            final(self).unverified_users@ == old(self).unverified_users@,
            final(self).email_change_requests@ == old(self).email_change_requests@,
            final(self).terms == old(self).terms,
            forall|i: int|
                0 <= i < final(self).password_resets@.len() ==> (#[trigger] final(self).password_resets@[i]).user_id@ != user_id@,
            forall|i: int|
                0 <= i < old(self).password_resets@.len() && (#[trigger] old(self).password_resets@[i]).user_id@ != user_id@ ==> final(self).password_resets@.contains(old(self).password_resets@[i]),
            forall|i: int|
                0 <= i < final(self).password_resets@.len() ==> old(self).password_resets@.contains(#[trigger] final(self).password_resets@[i]),
    {
        match self.find_password_reset_by_user(user_id) {
            Some(i) => {
                let ghost pre = self.password_resets@;
                self.password_resets.remove(i);
                proof {
                    pre.remove_ensures(i as int);
                    assert forall|a: int, b: int|
                        0 <= a < b < self.password_resets@.len() implies (
                    #[trigger] self.password_resets@[a]).token_hash@ != (
                    #[trigger] self.password_resets@[b]).token_hash@
                        && self.password_resets@[a].user_id@ != self.password_resets@[b].user_id@ by {
                        let a0 = if a < i { a } else { a + 1 };
                        let b0 = if b < i { b } else { b + 1 };
                        assert(self.password_resets@[a] == pre[a0]
                            && self.password_resets@[b] == pre[b0]);
                    }
                    assert forall|j: int|
                        0 <= j < self.password_resets@.len() implies (#[trigger] self.password_resets@[j]).user_id@
                            != user_id@ by {
                        let j0 = if j < i { j } else { j + 1 };
                        assert(self.password_resets@[j] == pre[j0]);
                        if j0 != i {
                            assert(pre[j0].user_id@ != pre[i as int].user_id@);
                        }
                    }
                    assert forall|j: int|
                        0 <= j < pre.len() && (#[trigger] pre[j]).user_id@ != user_id@ implies self.password_resets@.contains(
                            pre[j],
                        ) by {
                        let j1 = if j < i { j } else { j - 1 };
                        assert(self.password_resets@[j1] == pre[j]);
                    }
                    assert forall|j: int|
                        0 <= j < self.password_resets@.len() implies pre.contains(
                            #[trigger] self.password_resets@[j],
                        ) by {
                        let j0 = if j < i { j } else { j + 1 };
                        assert(self.password_resets@[j] == pre[j0]);
                    }
                }
            },
            None => {},
        }
    }

    /// Inserts a password reset request; the store's constraints demand a
    /// fresh token hash and no live request for the user.
    pub fn insert_password_reset(&mut self, row: PasswordResetRow)
        requires
            old(self).wf(),
            forall|i: int|
                0 <= i < old(self).password_resets@.len() ==> (#[trigger] old(self).password_resets@[i]).token_hash@ != row.token_hash@,
            forall|i: int|
                0 <= i < old(self).password_resets@.len() ==> (#[trigger] old(self).password_resets@[i]).user_id@ != row.user_id@,
        ensures
            final(self).wf(),
            final(self).password_resets@ == old(self).password_resets@.push(row),
            final(self).users@ == old(self).users@,
            final(self).sessions@ == old(self).sessions@,
            final(self).totp@ == old(self).totp@,
            final(self).unverified_users@ == old(self).unverified_users@,
            final(self).email_change_requests@ == old(self).email_change_requests@,
            final(self).terms == old(self).terms,
    {
        self.password_resets.push(row);
    }

    /// Consumes (deletes and returns) the password reset request with a
    /// token hash, if one exists.
    pub fn take_password_reset_by_token_hash(&mut self, token_hash: &Vec<u8>) -> (r: Option<
        PasswordResetRow,
    >)
        requires
            old(self).wf(),
        ensures
            final(self).wf(),
            final(self).users@ == old(self).users@,
            final(self).sessions@ == old(self).sessions@,
            final(self).totp@ == old(self).totp@,
            final(self).unverified_users@ == old(self).unverified_users@,
            final(self).email_change_requests@ == old(self).email_change_requests@,
            final(self).terms == old(self).terms,
            match r {
                Some(row) => exists|i: int|
                    {
                        &&& 0 <= i < old(self).password_resets@.len()
                        &&& (#[trigger] old(self).password_resets@[i]).token_hash@ == token_hash@
                        &&& row == old(self).password_resets@[i]
                        &&& final(self).password_resets@ == old(self).password_resets@.remove(i)
                    },
                None => final(self).password_resets@ == old(self).password_resets@ && forall|
                    i: int,
                |
                    0 <= i < old(self).password_resets@.len() ==> (#[trigger] old(self).password_resets@[i]).token_hash@ != token_hash@,
            },
    {
        match self.find_password_reset(token_hash) {
            Some(i) => {
                let ghost pre = self.password_resets@;
                let row = self.password_resets.remove(i);
                proof {
                    pre.remove_ensures(i as int);
                    assert forall|a: int, b: int|
                        0 <= a < b < self.password_resets@.len() implies (
                    #[trigger] self.password_resets@[a]).token_hash@ != (
                    #[trigger] self.password_resets@[b]).token_hash@
                        && self.password_resets@[a].user_id@ != self.password_resets@[b].user_id@ by {
                        let a0 = if a < i { a } else { a + 1 };
                        let b0 = if b < i { b } else { b + 1 };
                        assert(self.password_resets@[a] == pre[a0]
                            && self.password_resets@[b] == pre[b0]);
                    }
                }
                Some(row)
            },
            None => None,
        }
    }

    /// Deletes a user's email change request, if any, which expires it.
    pub fn delete_email_change_for_user(&mut self, user_id: &Vec<u8>)
        requires
            old(self).wf(),
        ensures
            final(self).wf(),
            final(self).users@ == old(self).users@,
            final(self).sessions@ == old(self).sessions@,
            final(self).totp@ == old(self).totp@,
            final(self).unverified_users@ == old(self).unverified_users@,
            final(self).password_resets@ == old(self).password_resets@,
            final(self).terms == old(self).terms,
            forall|i: int|
                0 <= i < final(self).email_change_requests@.len() ==> (#[trigger] final(self).email_change_requests@[i]).user_id@ != user_id@,
            forall|i: int|
                0 <= i < old(self).email_change_requests@.len() && (#[trigger] old(self).email_change_requests@[i]).user_id@ != user_id@ ==> final(self).email_change_requests@.contains(old(self).email_change_requests@[i]),
            forall|i: int|
                0 <= i < final(self).email_change_requests@.len() ==> old(self).email_change_requests@.contains(#[trigger] final(self).email_change_requests@[i]),
    {
        match self.find_email_change_by_user(user_id) {
            Some(i) => {
                let ghost pre = self.email_change_requests@;
                self.email_change_requests.remove(i);
                proof {
                    pre.remove_ensures(i as int);
                    assert forall|a: int, b: int|
                        0 <= a < b < self.email_change_requests@.len() implies (
                    #[trigger] self.email_change_requests@[a]).token_hash@ != (
                    #[trigger] self.email_change_requests@[b]).token_hash@
                        && self.email_change_requests@[a].user_id@
                        != self.email_change_requests@[b].user_id@ by {
                        let a0 = if a < i { a } else { a + 1 };
                        let b0 = if b < i { b } else { b + 1 };
                        assert(self.email_change_requests@[a] == pre[a0]
                            && self.email_change_requests@[b] == pre[b0]);
                    }
                    assert forall|j: int|
                        0 <= j < self.email_change_requests@.len() implies (
                    #[trigger] self.email_change_requests@[j]).user_id@ != user_id@ by {
                        let j0 = if j < i { j } else { j + 1 };
                        assert(self.email_change_requests@[j] == pre[j0]);
                        if j0 != i {
                            assert(pre[j0].user_id@ != pre[i as int].user_id@);
                        }
                    }
                    assert forall|j: int|
                        0 <= j < pre.len() && (#[trigger] pre[j]).user_id@ != user_id@ implies self.email_change_requests@.contains(
                            pre[j],
                        ) by {
                        let j1 = if j < i { j } else { j - 1 };
                        assert(self.email_change_requests@[j1] == pre[j]);
                    }
                    assert forall|j: int|
                        0 <= j < self.email_change_requests@.len() implies pre.contains(
                            #[trigger] self.email_change_requests@[j],
                        ) by {
                        let j0 = if j < i { j } else { j + 1 };
                        assert(self.email_change_requests@[j] == pre[j0]);
                    }
                }
            },
            None => {},
        }
    }

    /// Deletes every email change request aimed at an email address, used
    /// when that address gets taken.
    pub fn delete_email_changes_by_email(&mut self, email: &str)
        requires
            old(self).wf(),
        ensures
            final(self).wf(),
            final(self).users@ == old(self).users@,
            final(self).sessions@ == old(self).sessions@,
            final(self).totp@ == old(self).totp@,
            final(self).unverified_users@ == old(self).unverified_users@,
            final(self).password_resets@ == old(self).password_resets@,
            final(self).terms == old(self).terms,
            forall|i: int|
                0 <= i < final(self).email_change_requests@.len() ==> (#[trigger] final(self).email_change_requests@[i]).email@ != email@,
            forall|i: int|
                0 <= i < old(self).email_change_requests@.len() && (#[trigger] old(self).email_change_requests@[i]).email@ != email@ ==> final(self).email_change_requests@.contains(old(self).email_change_requests@[i]),
            forall|i: int|
                0 <= i < final(self).email_change_requests@.len() ==> old(self).email_change_requests@.contains(#[trigger] final(self).email_change_requests@[i]),
    {
        let ghost em = email@;
        let ghost keep = |s: EmailChangeRow| s.email@ != em;
        let ghost orig = self.email_change_requests@;
        let ghost ousers = self.users@;
        let ghost osessions = self.sessions@;
        let ghost ototp = self.totp@;
        let ghost ouu = self.unverified_users@;
        let ghost opr = self.password_resets@;
        let ghost oterms = self.terms;
        let mut i: usize = 0;
        let ghost k: int = 0;
        while i < self.email_change_requests.len()
            invariant
                0 <= i <= self.email_change_requests@.len(),
                0 <= k <= orig.len(),
                em == email@,
                keep == (|s: EmailChangeRow| s.email@ != em),
                self.users@ == ousers,
                self.sessions@ == osessions,
                self.totp@ == ototp,
                self.unverified_users@ == ouu,
                self.password_resets@ == opr,
                self.terms == oterms,
                self.email_change_requests@.subrange(0, i as int) =~= orig.subrange(0, k).filter(
                    keep,
                ),
                i as int == orig.subrange(0, k).filter(keep).len(),
                self.email_change_requests@.skip(i as int) =~= orig.skip(k),
            decreases orig.len() - k,
        {
            proof {
                assert(self.email_change_requests@.skip(i as int).len() == orig.skip(k).len());
                assert(k < orig.len());
                assert(self.email_change_requests@.skip(i as int)[0] == orig.skip(k)[0]);
                assert(self.email_change_requests@[i as int] == orig[k]);
            }
            let ghost pre = self.email_change_requests@;
            let ghost prefix = orig.subrange(0, k);
            if str_eq(self.email_change_requests[i].email.as_str(), email) {
                self.email_change_requests.remove(i);
                proof {
                    reveal(Seq::filter);
                    pre.remove_ensures(i as int);
                    assert(orig.subrange(0, k + 1).drop_last() =~= prefix);
                    assert(orig.subrange(0, k + 1).last() == orig[k]);
                    assert(!keep(orig[k]));
                    assert(orig.subrange(0, k + 1).filter(keep) =~= prefix.filter(keep));
                    assert(self.email_change_requests@.subrange(0, i as int) =~= pre.subrange(
                        0,
                        i as int,
                    ));
                    assert forall|j: int|
                        0 <= j < self.email_change_requests@.len() - i implies #[trigger] self.email_change_requests@.skip(
                        i as int,
                    )[j] == orig.skip(k + 1)[j] by {
                        assert(self.email_change_requests@[i + j] == pre[i + j + 1]);
                        assert(pre.skip(i as int)[j + 1] == orig.skip(k)[j + 1]);
                    }
                    assert(self.email_change_requests@.skip(i as int) =~= orig.skip(k + 1));
                }
                proof {
                    k = k + 1;
                }
            } else {
                proof {
                    reveal(Seq::filter);
                    assert(orig.subrange(0, k + 1).drop_last() =~= prefix);
                    assert(orig.subrange(0, k + 1).last() == orig[k]);
                    assert(keep(orig[k]));
                    assert(orig.subrange(0, k + 1).filter(keep) =~= prefix.filter(keep).push(
                        orig[k],
                    ));
                    assert(self.email_change_requests@.subrange(0, i as int + 1)
                        =~= self.email_change_requests@.subrange(0, i as int).push(
                        self.email_change_requests@[i as int],
                    ));
                    assert forall|j: int|
                        0 <= j < self.email_change_requests@.len() - i - 1 implies #[trigger] self.email_change_requests@.skip(
                        i as int + 1,
                    )[j] == orig.skip(k + 1)[j] by {
                        assert(self.email_change_requests@.skip(i as int)[j + 1] == orig.skip(
                            k,
                        )[j + 1]);
                    }
                    assert(self.email_change_requests@.skip(i as int + 1) =~= orig.skip(k + 1));
                }
                i = i + 1;
                proof {
                    k = k + 1;
                }
            }
        }
        proof {
            assert(orig.subrange(0, orig.len() as int) =~= orig);
            assert(self.email_change_requests@.skip(i as int).len() == 0);
            assert(self.email_change_requests@ =~= self.email_change_requests@.subrange(
                0,
                i as int,
            ));
            assert(self.email_change_requests@ =~= orig.filter(keep));
            lemma_filter_sub(orig, keep);
            lemma_filter_distinct_keys(orig, keep, |s: EmailChangeRow| s.token_hash@);
            lemma_filter_distinct_keys(orig, keep, |s: EmailChangeRow| s.user_id@);
            broadcast use vstd::seq_lib::group_filter_ensures;
            assert forall|m: int| 0 <= m < self.email_change_requests@.len() implies orig.contains(
                #[trigger] self.email_change_requests@[m],
            ) by {
                assert(orig.filter(keep)[m] == self.email_change_requests@[m]);
                assert(orig.filter(keep).contains(self.email_change_requests@[m]));
            }
        }
    }

    /// Inserts an email change request; the store's constraints demand a
    /// fresh token hash and no live request for the user.
    pub fn insert_email_change(&mut self, row: EmailChangeRow)
        requires
            old(self).wf(),
            forall|i: int|
                0 <= i < old(self).email_change_requests@.len() ==> (#[trigger] old(self).email_change_requests@[i]).token_hash@ != row.token_hash@,
            forall|i: int|
                0 <= i < old(self).email_change_requests@.len() ==> (#[trigger] old(self).email_change_requests@[i]).user_id@ != row.user_id@,
        ensures
            final(self).wf(),
            final(self).email_change_requests@ == old(self).email_change_requests@.push(row),
            final(self).users@ == old(self).users@,
            final(self).sessions@ == old(self).sessions@,
            final(self).totp@ == old(self).totp@,
            final(self).unverified_users@ == old(self).unverified_users@,
            final(self).password_resets@ == old(self).password_resets@,
            final(self).terms == old(self).terms,
    {
        self.email_change_requests.push(row);
    }

    /// Consumes (deletes and returns) the email change request with a token
    /// hash, if one exists.
    pub fn take_email_change_by_token_hash(&mut self, token_hash: &Vec<u8>) -> (r: Option<
        EmailChangeRow,
    >)
        requires
            old(self).wf(),
        ensures
            final(self).wf(),
            final(self).users@ == old(self).users@,
            final(self).sessions@ == old(self).sessions@,
            final(self).totp@ == old(self).totp@,
            final(self).unverified_users@ == old(self).unverified_users@,
            final(self).password_resets@ == old(self).password_resets@,
            final(self).terms == old(self).terms,
            match r {
                Some(row) => exists|i: int|
                    {
                        &&& 0 <= i < old(self).email_change_requests@.len()
                        &&& (#[trigger] old(self).email_change_requests@[i]).token_hash@
                            == token_hash@
                        &&& row == old(self).email_change_requests@[i]
                        &&& final(self).email_change_requests@ == old(self).email_change_requests@.remove(i)
                    },
                None => final(self).email_change_requests@ == old(self).email_change_requests@
                    && forall|i: int|
                    0 <= i < old(self).email_change_requests@.len() ==> (#[trigger] old(self).email_change_requests@[i]).token_hash@ != token_hash@,
            },
    {
        match self.find_email_change(token_hash) {
            Some(i) => {
                let ghost pre = self.email_change_requests@;
                let row = self.email_change_requests.remove(i);
                proof {
                    pre.remove_ensures(i as int);
                    assert forall|a: int, b: int|
                        0 <= a < b < self.email_change_requests@.len() implies (
                    #[trigger] self.email_change_requests@[a]).token_hash@ != (
                    #[trigger] self.email_change_requests@[b]).token_hash@
                        && self.email_change_requests@[a].user_id@
                        != self.email_change_requests@[b].user_id@ by {
                        let a0 = if a < i { a } else { a + 1 };
                        let b0 = if b < i { b } else { b + 1 };
                        assert(self.email_change_requests@[a] == pre[a0]
                            && self.email_change_requests@[b] == pre[b0]);
                    }
                }
                Some(row)
            },
            None => None,
        }
    }
}

/// Whether two optional byte vectors hold the same bytes.
pub open spec fn opt_bytes_alike(a: Option<Vec<u8>>, b: Option<Vec<u8>>) -> bool {
    match (a, b) {
        (Some(x), Some(y)) => x@ == y@,
        (None, None) => true,
        _ => false,
    }
}

/// Whether two user rows carry the same data.
pub open spec fn user_row_alike(a: UserRow, b: UserRow) -> bool {
    &&& a.id@ == b.id@
    &&& a.email == b.email
    &&& a.name == b.name
    &&& a.password_hash == b.password_hash
    &&& a.accepted_terms_at == b.accepted_terms_at
}

/// Whether two session rows carry the same data.
pub open spec fn session_row_alike(a: SessionRow, b: SessionRow) -> bool {
    a.token_hash@ == b.token_hash@ && a.user_id@ == b.user_id@
}

/// Whether two second-factor rows carry the same data.
pub open spec fn totp_row_alike(a: TotpRow, b: TotpRow) -> bool {
    &&& a.user_id@ == b.user_id@
    &&& opt_bytes_alike(a.secret, b.secret)
    &&& opt_bytes_alike(a.unverified_secret, b.unverified_secret)
    &&& a.otp_used_last == b.otp_used_last
    &&& a.otp_used_2nd_to_last == b.otp_used_2nd_to_last
    &&& a.unused_backup_codes@ == b.unused_backup_codes@
}

/// Whether two email verification request rows carry the same data.
pub open spec fn unverified_row_alike(a: UnverifiedUserRow, b: UnverifiedUserRow) -> bool {
    &&& a.token_hash@ == b.token_hash@
    &&& a.email == b.email
    &&& a.code_hash == b.code_hash
    &&& a.accepted_terms_at == b.accepted_terms_at
}

/// Whether two password reset rows carry the same data.
pub open spec fn password_reset_row_alike(a: PasswordResetRow, b: PasswordResetRow) -> bool {
    a.token_hash@ == b.token_hash@ && a.user_id@ == b.user_id@
}

/// Whether two email change rows carry the same data.
pub open spec fn email_change_row_alike(a: EmailChangeRow, b: EmailChangeRow) -> bool {
    &&& a.token_hash@ == b.token_hash@
    &&& a.user_id@ == b.user_id@
    &&& a.email == b.email
}

/// Whether two stores hold the same data, row for row. A transaction works
/// on such a copy; committing adopts it and rolling back discards it.
pub open spec fn stores_alike(a: Store, b: Store) -> bool {
    &&& a.users@.len() == b.users@.len()
    &&& forall|i: int|
        0 <= i < a.users@.len() ==> user_row_alike(#[trigger] a.users@[i], #[trigger] b.users@[i])
    &&& a.sessions@.len() == b.sessions@.len()
    &&& forall|i: int|
        0 <= i < a.sessions@.len() ==> session_row_alike(
            #[trigger] a.sessions@[i],
            #[trigger] b.sessions@[i],
        )
    &&& a.totp@.len() == b.totp@.len()
    &&& forall|i: int|
        0 <= i < a.totp@.len() ==> totp_row_alike(#[trigger] a.totp@[i], #[trigger] b.totp@[i])
    &&& a.unverified_users@.len() == b.unverified_users@.len()
    &&& forall|i: int|
        0 <= i < a.unverified_users@.len() ==> unverified_row_alike(
            #[trigger] a.unverified_users@[i],
            #[trigger] b.unverified_users@[i],
        )
    &&& a.password_resets@.len() == b.password_resets@.len()
    &&& forall|i: int|
        0 <= i < a.password_resets@.len() ==> password_reset_row_alike(
            #[trigger] a.password_resets@[i],
            #[trigger] b.password_resets@[i],
        )
    &&& a.email_change_requests@.len() == b.email_change_requests@.len()
    &&& forall|i: int|
        0 <= i < a.email_change_requests@.len() ==> email_change_row_alike(
            #[trigger] a.email_change_requests@[i],
            #[trigger] b.email_change_requests@[i],
        )
    &&& match (a.terms, b.terms) {
        (Some(x), Some(y)) => x.terms_hash@ == y.terms_hash@ && x.privacy_hash@ == y.privacy_hash@,
        (None, None) => true,
        _ => false,
    }
}

/// A store that holds the same data as a well-formed one is well-formed.
pub proof fn lemma_stores_alike_wf(a: Store, b: Store)
    requires
        a.wf(),
        stores_alike(a, b),
    ensures
        b.wf(),
{
    assert forall|i: int, j: int|
        0 <= i < j < b.users@.len() implies (#[trigger] b.users@[i]).id@ != (
    #[trigger] b.users@[j]).id@ && b.users@[i].email@ != b.users@[j].email@ by {
        assert(user_row_alike(a.users@[i], b.users@[i]));
        assert(user_row_alike(a.users@[j], b.users@[j]));
        assert(a.users@[i].id@ != a.users@[j].id@);
        assert(a.users@[i].email@ != a.users@[j].email@);
    }
    assert forall|i: int, j: int|
        0 <= i < j < b.sessions@.len() implies (#[trigger] b.sessions@[i]).token_hash@ != (
    #[trigger] b.sessions@[j]).token_hash@ by {
        assert(session_row_alike(a.sessions@[i], b.sessions@[i]));
        assert(session_row_alike(a.sessions@[j], b.sessions@[j]));
        assert(a.sessions@[i].token_hash@ != a.sessions@[j].token_hash@);
    }
    assert forall|i: int, j: int|
        0 <= i < j < b.totp@.len() implies (#[trigger] b.totp@[i]).user_id@ != (
    #[trigger] b.totp@[j]).user_id@ by {
        assert(totp_row_alike(a.totp@[i], b.totp@[i]));
        assert(totp_row_alike(a.totp@[j], b.totp@[j]));
        assert(a.totp@[i].user_id@ != a.totp@[j].user_id@);
    }
    assert forall|i: int, j: int|
        0 <= i < j < b.unverified_users@.len() implies (
    #[trigger] b.unverified_users@[i]).token_hash@ != (
    #[trigger] b.unverified_users@[j]).token_hash@ && b.unverified_users@[i].email@
        != b.unverified_users@[j].email@ by {
        assert(unverified_row_alike(a.unverified_users@[i], b.unverified_users@[i]));
        assert(unverified_row_alike(a.unverified_users@[j], b.unverified_users@[j]));
        assert(a.unverified_users@[i].token_hash@ != a.unverified_users@[j].token_hash@);
        assert(a.unverified_users@[i].email@ != a.unverified_users@[j].email@);
    }
    assert forall|i: int, j: int|
        0 <= i < j < b.password_resets@.len() implies (
    #[trigger] b.password_resets@[i]).token_hash@ != (
    #[trigger] b.password_resets@[j]).token_hash@ && b.password_resets@[i].user_id@
        != b.password_resets@[j].user_id@ by {
        assert(password_reset_row_alike(a.password_resets@[i], b.password_resets@[i]));
        assert(password_reset_row_alike(a.password_resets@[j], b.password_resets@[j]));
        assert(a.password_resets@[i].token_hash@ != a.password_resets@[j].token_hash@);
        assert(a.password_resets@[i].user_id@ != a.password_resets@[j].user_id@);
    }
    assert forall|i: int, j: int|
        0 <= i < j < b.email_change_requests@.len() implies (
    #[trigger] b.email_change_requests@[i]).token_hash@ != (
    #[trigger] b.email_change_requests@[j]).token_hash@ && b.email_change_requests@[i].user_id@
        != b.email_change_requests@[j].user_id@ by {
        assert(email_change_row_alike(a.email_change_requests@[i], b.email_change_requests@[i]));
        assert(email_change_row_alike(a.email_change_requests@[j], b.email_change_requests@[j]));
        assert(a.email_change_requests@[i].token_hash@ != a.email_change_requests@[j].token_hash@);
        assert(a.email_change_requests@[i].user_id@ != a.email_change_requests@[j].user_id@);
    }
}

impl Store {
    /// Copies the store, row for row. A transaction attempt runs on the
    /// copy so that rolling back is simply discarding it.
    pub fn duplicate(&self) -> (r: Store)
        ensures
            stores_alike(*self, r),
            self.wf() ==> r.wf(),
    {
        let mut users: Vec<UserRow> = Vec::new();
        let mut i: usize = 0;
        while i < self.users.len()
            invariant
                0 <= i <= self.users@.len(),
                users@.len() == i,
                forall|j: int|
                    0 <= j < i ==> user_row_alike(
                        #[trigger] self.users@[j],
                        #[trigger] users@[j],
                    ),
            decreases self.users@.len() - i,
        {
            let row = &self.users[i];
            users.push(
                UserRow {
                    id: clone_bytes(&row.id),
                    email: row.email.clone(),
                    name: row.name.clone(),
                    password_hash: row.password_hash.clone(),
                    accepted_terms_at: row.accepted_terms_at,
                },
            );
            i = i + 1;
        }
        let mut sessions: Vec<SessionRow> = Vec::new();
        let mut i: usize = 0;
        while i < self.sessions.len()
            invariant
                0 <= i <= self.sessions@.len(),
                sessions@.len() == i,
                forall|j: int|
                    0 <= j < i ==> session_row_alike(
                        #[trigger] self.sessions@[j],
                        #[trigger] sessions@[j],
                    ),
            decreases self.sessions@.len() - i,
        {
            let row = &self.sessions[i];
            sessions.push(
                SessionRow {
                    token_hash: clone_bytes(&row.token_hash),
                    user_id: clone_bytes(&row.user_id),
                },
            );
            i = i + 1;
        }
        let mut totp: Vec<TotpRow> = Vec::new();
        let mut i: usize = 0;
        while i < self.totp.len()
            invariant
                0 <= i <= self.totp@.len(),
                totp@.len() == i,
                forall|j: int|
                    0 <= j < i ==> totp_row_alike(#[trigger] self.totp@[j], #[trigger] totp@[j]),
            decreases self.totp@.len() - i,
        {
            let row = &self.totp[i];
            let mut codes: Vec<String> = Vec::new();
            let mut c: usize = 0;
            while c < row.unused_backup_codes.len()
                invariant
                    0 <= c <= row.unused_backup_codes@.len(),
                    codes@.len() == c,
                    forall|j: int|
                        0 <= j < c ==> #[trigger] codes@[j] == row.unused_backup_codes@[j],
                decreases row.unused_backup_codes@.len() - c,
            {
                codes.push(row.unused_backup_codes[c].clone());
                c = c + 1;
            }
            proof {
                assert(codes@ =~= row.unused_backup_codes@);
            }
            totp.push(
                TotpRow {
                    user_id: clone_bytes(&row.user_id),
                    secret: clone_opt_bytes(&row.secret),
                    unverified_secret: clone_opt_bytes(&row.unverified_secret),
                    otp_used_last: clone_opt_string(&row.otp_used_last),
                    otp_used_2nd_to_last: clone_opt_string(&row.otp_used_2nd_to_last),
                    unused_backup_codes: codes,
                },
            );
            i = i + 1;
        }
        let mut unverified_users: Vec<UnverifiedUserRow> = Vec::new();
        let mut i: usize = 0;
        while i < self.unverified_users.len()
            invariant
                0 <= i <= self.unverified_users@.len(),
                unverified_users@.len() == i,
                forall|j: int|
                    0 <= j < i ==> unverified_row_alike(
                        #[trigger] self.unverified_users@[j],
                        #[trigger] unverified_users@[j],
                    ),
            decreases self.unverified_users@.len() - i,
        {
            let row = &self.unverified_users[i];
            unverified_users.push(
                UnverifiedUserRow {
                    token_hash: clone_bytes(&row.token_hash),
                    email: row.email.clone(),
                    code_hash: clone_opt_string(&row.code_hash),
                    accepted_terms_at: row.accepted_terms_at,
                },
            );
            i = i + 1;
        }
        let mut password_resets: Vec<PasswordResetRow> = Vec::new();
        let mut i: usize = 0;
        while i < self.password_resets.len()
            invariant
                0 <= i <= self.password_resets@.len(),
                password_resets@.len() == i,
                forall|j: int|
                    0 <= j < i ==> password_reset_row_alike(
                        #[trigger] self.password_resets@[j],
                        #[trigger] password_resets@[j],
                    ),
            decreases self.password_resets@.len() - i,
        {
            let row = &self.password_resets[i];
            password_resets.push(
                PasswordResetRow {
                    token_hash: clone_bytes(&row.token_hash),
                    user_id: clone_bytes(&row.user_id),
                },
            );
            i = i + 1;
        }
        let mut email_change_requests: Vec<EmailChangeRow> = Vec::new();
        let mut i: usize = 0;
        while i < self.email_change_requests.len()
            invariant
                0 <= i <= self.email_change_requests@.len(),
                email_change_requests@.len() == i,
                forall|j: int|
                    0 <= j < i ==> email_change_row_alike(
                        #[trigger] self.email_change_requests@[j],
                        #[trigger] email_change_requests@[j],
                    ),
            decreases self.email_change_requests@.len() - i,
        {
            let row = &self.email_change_requests[i];
            email_change_requests.push(
                EmailChangeRow {
                    token_hash: clone_bytes(&row.token_hash),
                    user_id: clone_bytes(&row.user_id),
                    email: row.email.clone(),
                },
            );
            i = i + 1;
        }
        let terms = match &self.terms {
            Some(t) => Some(
                TermsRow {
                    terms_hash: clone_bytes(&t.terms_hash),
                    privacy_hash: clone_bytes(&t.privacy_hash),
                },
            ),
            None => None,
        };
        let copy = Store {
            users,
            sessions,
            totp,
            unverified_users,
            password_resets,
            email_change_requests,
            terms,
        };
        proof {
            if self.wf() {
                lemma_stores_alike_wf(*self, copy);
            }
        }
        copy
    }
}

} // verus!
