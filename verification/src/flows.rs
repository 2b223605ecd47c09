//! The engine's request-level units of work. Each function here is the body
//! of one transaction: it works on the transaction's store copy and returns
//! a typed outcome. The retry coordinator in [`crate::tx`] commits or
//! discards the copy, so these functions never observe a retry.

use vstd::prelude::*;

use crate::credentials::{
    multi_factor_outcome, user_exists, ExclusiveSecondFactorCredentials, FirstFactorCredentials,
    MultiFactorCredentials,
};
use crate::crypto;
use crate::crypto::argon2_verifies;
use crate::errors::{Error, TxError, TxResult};
use crate::store::Store;
use crate::token::Token;
use crate::tx;
use crate::tx::{session_created, session_hash_free};
use crate::validation::{UserName, UserPassword};

verus! {

/// The index of the user whose email is the given one, if any.
pub open spec fn email_known(s: Store, email: Seq<char>) -> bool {
    exists|i: int| 0 <= i < s.users@.len() && (#[trigger] s.users@[i]).email@ == email
}

/// The session with this token hash exists and belongs to a stored user.
pub open spec fn session_user(s: Store, token_hash: Seq<u8>, user_id: Seq<u8>) -> bool {
    &&& exists|i: int|
        0 <= i < s.sessions@.len() && (#[trigger] s.sessions@[i]).token_hash@ == token_hash
            && s.sessions@[i].user_id@ == user_id
    &&& user_exists(s, user_id)
}

/// No stored user owns a session with this token hash: either the session
/// row is missing or its user row is gone.
pub open spec fn session_unauthenticated(s: Store, token_hash: Seq<u8>) -> bool {
    forall|i: int, j: int|
        0 <= i < s.sessions@.len() && 0 <= j < s.users@.len() && (
        #[trigger] s.sessions@[i]).token_hash@ == token_hash ==> (#[trigger] s.users@[j]).id@
            != s.sessions@[i].user_id@
}

/// What signing in does. The same generic first-factor error is returned
/// whether the email is unknown or the password is wrong, to mitigate user
/// enumeration; on full success a session is created from the candidate
/// tokens.
pub open spec fn sign_in_outcome(
    pre: Store,
    post: Store,
    email: Seq<char>,
    password: Seq<char>,
    second: Option<ExclusiveSecondFactorCredentials>,
    time: u64,
    candidates: Seq<Token>,
    r: TxResult<(Token, Vec<u8>, String), Error>,
) -> bool {
    if !email_known(pre, email) {
        &&& post == pre
        &&& r == TxResult::<(Token, Vec<u8>, String), Error>::Err(TxError::<Error>::Abort(
            Error::FirstFactorCredentialsWrong,
        ))
    } else {
        exists|i: int|
            {
                &&& 0 <= i < pre.users@.len()
                &&& (#[trigger] pre.users@[i]).email@ == email
                &&& sign_in_steps(pre, post, pre.users@[i].id@, pre.users@[i].name@, password, second, time, candidates, r)
            }
    }
}

/// The steps of signing in once the user is resolved: multi-factor
/// verification, then session creation.
pub open spec fn sign_in_steps(
    pre: Store,
    post: Store,
    user_id: Seq<u8>,
    user_name: Seq<char>,
    password: Seq<char>,
    second: Option<ExclusiveSecondFactorCredentials>,
    time: u64,
    candidates: Seq<Token>,
    r: TxResult<(Token, Vec<u8>, String), Error>,
) -> bool {
    match r {
        Ok((token, out_id, out_name)) => {
            &&& out_id@ == user_id
            &&& out_name@ == user_name
            &&& exists|mid: Store|
                {
                    &&& #[trigger] multi_factor_outcome(
                        pre,
                        mid,
                        user_id,
                        password,
                        second,
                        time,
                        Ok(()),
                    )
                    &&& session_created(mid, post, user_id, token@)
                    &&& exists|j: int| 0 <= j < candidates.len() && candidates[j] == token
                }
        },
        Err(TxError::Abort(e)) => {
            ||| multi_factor_outcome(
                pre,
                post,
                user_id,
                password,
                second,
                time,
                Err(TxError::Abort(e)),
            )
            ||| (e is Internal && exists|mid: Store|
                {
                    &&& #[trigger] multi_factor_outcome(
                        pre,
                        mid,
                        user_id,
                        password,
                        second,
                        time,
                        Ok(()),
                    )
                    &&& post == mid
                    &&& forall|m: int|
                        0 <= m < candidates.len() ==> !session_hash_free(
                            mid,
                            crypto::sha256_of((#[trigger] candidates[m])@),
                        )
                })
        },
        Err(TxError::Retry) => false,
    }
}

/// Signs a user in: resolves the email, verifies the multi-factor
/// credentials, and creates a sign-in session. Returns the session token
/// with the user's ID and display name.
pub fn sign_in_tx(
    s: &mut Store,
    email: &str,
    credentials: &MultiFactorCredentials,
    time: u64,
    candidates: Vec<Token>,
) -> (r: TxResult<(Token, Vec<u8>, String), Error>)
    requires
        old(s).wf(),
        credentials is FirstAndSecond,
    ensures
        final(s).wf(),
        sign_in_outcome(
            *old(s),
            *final(s),
            email@,
            credentials->first->password@,
            credentials->second,
            time,
            candidates@,
            r,
        ),
{
    let i = match s.find_user_by_email(email) {
        Some(i) => i,
        None => {
            // To mitigate user enumeration, this is the same error response
            // whether it was the email or the credentials that were wrong.
            return Err(TxError::Abort(Error::FirstFactorCredentialsWrong));
        },
    };
    let user_id = crypto::clone_bytes(&s.users[i].id);
    let user_name = s.users[i].name.clone();
    let ghost pre = *s;
    let ghost idx = i as int;
    match credentials.verify(s, &user_id, time) {
        Ok(()) => {},
        Err(e) => {
            proof {
                assert(pre.users@[idx].email@ == email@);
            }
            return Err(e);
        },
    }
    let ghost mid = *s;
    match tx::create_session_with(s, &user_id, candidates) {
        Ok(token) => {
            proof {
                assert(multi_factor_outcome(
                    pre,
                    mid,
                    user_id@,
                    credentials->first->password@,
                    credentials->second,
                    time,
                    Ok(()),
                ));
            }
            Ok((token, user_id, user_name))
        },
        Err(TxError::Abort(_)) => Err(TxError::Abort(Error::Internal)),
        Err(TxError::Retry) => Err(TxError::Abort(Error::Internal)),
    }
}

/// Verifies that submitted multi-factor credentials are correct for the
/// user owning the session with this token hash.
pub fn verify_credentials_tx(
    s: &mut Store,
    token_hash: &Vec<u8>,
    credentials: &MultiFactorCredentials,
    time: u64,
) -> (r: TxResult<(), Error>)
    requires
        old(s).wf(),
        credentials is FirstAndSecond,
    ensures
        final(s).wf(),
        ({
            let password = credentials->first->password;
            let second = credentials->second;
            if session_unauthenticated(*old(s), token_hash@) {
                &&& *final(s) == *old(s)
                &&& r == TxResult::<(), Error>::Err(TxError::<Error>::Abort(Error::AuthFailed))
            } else {
                exists|uid: Seq<u8>|
                    #[trigger] session_user(*old(s), token_hash@, uid) && multi_factor_outcome(
                        *old(s),
                        *final(s),
                        uid,
                        password@,
                        second,
                        time,
                        r,
                    )
            }
        }),
{
    let i = match s.find_user_by_session(token_hash) {
        Some(i) => i,
        None => {
            return Err(TxError::Abort(Error::AuthFailed));
        },
    };
    let user_id = crypto::clone_bytes(&s.users[i].id);
    proof {
        assert(session_user(*s, token_hash@, user_id@));
    }
    credentials.verify(s, &user_id, time)
}

/// Verifies that a submitted password is correct for the user owning the
/// session with this token hash.
pub fn password_verify_tx(s: &Store, token_hash: &Vec<u8>, password: &UserPassword) -> (r:
    TxResult<(), Error>)
    requires
        s.wf(),
    ensures
        match r {
            Ok(()) => exists|j: int|
                {
                    &&& 0 <= j < s.users@.len()
                    &&& session_user(*s, token_hash@, (#[trigger] s.users@[j]).id@)
                    &&& argon2_verifies(password@, s.users@[j].password_hash@)
                },
            Err(TxError::Abort(e)) => {
                ||| (e is AuthFailed && session_unauthenticated(*s, token_hash@))
                ||| (e is UserCredentialsWrong && exists|j: int|
                    {
                        &&& 0 <= j < s.users@.len()
                        &&& session_user(*s, token_hash@, (#[trigger] s.users@[j]).id@)
                        &&& !argon2_verifies(password@, s.users@[j].password_hash@)
                    })
            },
            Err(TxError::Retry) => false,
        },
{
    let i = match s.find_user_by_session(token_hash) {
        Some(i) => i,
        None => {
            return Err(TxError::Abort(Error::AuthFailed));
        },
    };
    proof {
        assert(session_user(*s, token_hash@, s.users@[i as int].id@));
    }
    if crypto::verify_hash(password.as_str(), s.users[i].password_hash.as_str()) {
        Ok(())
    } else {
        Err(TxError::Abort(Error::UserCredentialsWrong))
    }
}

/// Information that verifies a prospective user's email address: either the
/// short code previously issued for the email, or the token from the
/// verification link.
pub enum EmailVerification {
    /// Email verification using the email address and its short code.
    Code {
        /// The email address being verified.
        email: String,
        /// The short verification code for the email address.
        code: crate::validation::EmailVerificationCode,
    },
    /// Email verification using the verification token.
    Token {
        /// The verification token.
        token: Token,
    },
}

/// The email verification request at this index is the one the submitted
/// verification information selects and satisfies.
pub open spec fn verification_selects(pre: Store, v: EmailVerification, i: int) -> bool {
    &&& 0 <= i < pre.unverified_users@.len()
    &&& match v {
        EmailVerification::Code { email, code } => {
            &&& pre.unverified_users@[i].email@ == email@
            &&& pre.unverified_users@[i].code_hash matches Some(h) && argon2_verifies(code@, h@)
        },
        EmailVerification::Token { token } => pre.unverified_users@[i].token_hash@
            == crypto::sha256_of(token@),
    }
}

/// Some email verification request satisfies the submitted verification
/// information.
pub open spec fn verification_accepted(pre: Store, v: EmailVerification) -> bool {
    exists|i: int| #[trigger] verification_selects(pre, v, i)
}

/// What creating a user does on success: the selected email verification
/// request is consumed, every email change request aimed at the email is
/// expired, the user row is appended, and a session is created.
pub open spec fn signed_up(
    pre: Store,
    post: Store,
    i: int,
    name: Seq<char>,
    password_hash: Seq<char>,
    new_user_id: Seq<u8>,
    token: Seq<u8>,
) -> bool {
    let email = pre.unverified_users@[i].email@;
    &&& post.unverified_users@ == pre.unverified_users@.remove(i)
    &&& forall|m: int|
        0 <= m < post.email_change_requests@.len() ==> (
        #[trigger] post.email_change_requests@[m]).email@ != email
    &&& forall|m: int|
        0 <= m < pre.email_change_requests@.len() && (
        #[trigger] pre.email_change_requests@[m]).email@ != email
            ==> post.email_change_requests@.contains(pre.email_change_requests@[m])
    &&& forall|m: int|
        0 <= m < post.email_change_requests@.len() ==> pre.email_change_requests@.contains(
            #[trigger] post.email_change_requests@[m],
        )
    &&& post.users@.len() == pre.users@.len() + 1
    &&& post.users@ == pre.users@.push(post.users@.last())
    &&& post.users@.last().id@ == new_user_id
    &&& post.users@.last().email@ == email
    &&& post.users@.last().name@ == name
    &&& post.users@.last().password_hash@ == password_hash
    &&& post.users@.last().accepted_terms_at == pre.unverified_users@[i].accepted_terms_at
    &&& post.sessions@.len() == pre.sessions@.len() + 1
    &&& post.sessions@ == pre.sessions@.push(post.sessions@.last())
    &&& post.sessions@.last().user_id@ == new_user_id
    &&& post.sessions@.last().token_hash@ == crypto::sha256_of(token)
    &&& session_hash_free(pre, crypto::sha256_of(token))
    &&& post.totp@ == pre.totp@
    &&& post.password_resets@ == pre.password_resets@
    &&& post.terms == pre.terms
}

/// The tables other than the email verification requests are unchanged, at
/// the level of the data they hold.
pub open spec fn only_unverified_changed(pre: Store, post: Store) -> bool {
    &&& post.users@ == pre.users@
    &&& post.sessions@ == pre.sessions@
    &&& post.totp@ == pre.totp@
    &&& post.password_resets@ == pre.password_resets@
    &&& post.email_change_requests@ == pre.email_change_requests@
    &&& post.terms == pre.terms
}

/// The ID candidate at this index is the first whose ID no stored user
/// holds.
pub open spec fn first_free_user_id(pre: Store, ids: Seq<Vec<u8>>, k: int) -> bool {
    &&& 0 <= k < ids.len()
    &&& !user_exists(pre, ids[k]@)
    &&& forall|m: int| 0 <= m < k ==> user_exists(pre, (#[trigger] ids[m])@)
}

/// Creates a new user from a consumed email verification request and signs
/// them in. The randomly drawn user ID candidates are tried in order inside
/// a savepoint: a colliding ID undoes only its own insert attempt and the
/// next candidate is tried, preserving the work already done in the
/// transaction.
pub fn sign_up_tx(
    s: &mut Store,
    verification: &EmailVerification,
    name: &UserName,
    password_hash: &String,
    user_id_candidates: Vec<Vec<u8>>,
    candidates: Vec<Token>,
) -> (r: TxResult<(Vec<u8>, Token), Error>)
    requires
        old(s).wf(),
    ensures
        final(s).wf(),
        match r {
            Ok((user_id, token)) => exists|i: int|
                {
                    &&& #[trigger] verification_selects(*old(s), *verification, i)
                    &&& !email_known(*old(s), old(s).unverified_users@[i].email@)
                    &&& exists|k: int|
                        #[trigger] first_free_user_id(*old(s), user_id_candidates@, k) && user_id@
                            == user_id_candidates@[k]@
                    &&& signed_up(
                        *old(s),
                        *final(s),
                        i,
                        name@,
                        password_hash@,
                        user_id@,
                        token@,
                    )
                    &&& exists|j: int|
                        0 <= j < candidates@.len() && #[trigger] candidates@[j] == token
                },
            Err(TxError::Abort(e)) => {
                ||| (e is EmailVerificationWrong && !verification_accepted(*old(s), *verification)
                    && {
                    ||| *final(s) == *old(s)
                    ||| (exists|i: int|
                        {
                            &&& 0 <= i < old(s).unverified_users@.len()
                            &&& (verification matches EmailVerification::Code { email, .. })
                            &&& (#[trigger] old(s).unverified_users@[i]).email@
                                == verification->Code_email@
                            &&& final(s).unverified_users@ == old(s).unverified_users@.remove(i)
                        } && only_unverified_changed(*old(s), *final(s)))
                })
                ||| (e is Internal && exists|i: int|
                    #[trigger] verification_selects(*old(s), *verification, i) && email_known(
                        *old(s),
                        old(s).unverified_users@[i].email@,
                    ))
                ||| (e is Internal && exists|i: int|
                    #[trigger] verification_selects(*old(s), *verification, i) && !email_known(
                        *old(s),
                        old(s).unverified_users@[i].email@,
                    ) && forall|m: int|
                        0 <= m < user_id_candidates@.len() ==> user_exists(
                            *old(s),
                            (#[trigger] user_id_candidates@[m])@,
                        ))
                ||| (e is Internal && exists|i: int|
                    #[trigger] verification_selects(*old(s), *verification, i) && !email_known(
                        *old(s),
                        old(s).unverified_users@[i].email@,
                    ) && (exists|k: int|
                        #[trigger] first_free_user_id(*old(s), user_id_candidates@, k))
                    && forall|m: int|
                        0 <= m < candidates@.len() ==> !session_hash_free(
                            *old(s),
                            crypto::sha256_of((#[trigger] candidates@[m])@),
                        ))
            },
            Err(TxError::Retry) => false,
        },
{
    let ghost pre = *s;
    let (row, ghost_i) = match verification {
        EmailVerification::Code { email, code } => {
            if s.find_unverified_by_email(email.as_str()).is_none() {
                return Err(TxError::Abort(Error::EmailVerificationWrong));
            }
            let taken = s.take_unverified_by_email(email.as_str());
            match taken {
                Some(row) => {
                    let code_matches = match &row.code_hash {
                        Some(h) => crypto::verify_hash(code.as_str(), h.as_str()),
                        None => false,
                    };
                    let ghost gi = choose|i0: int|
                        {
                            &&& 0 <= i0 < pre.unverified_users@.len()
                            &&& (#[trigger] pre.unverified_users@[i0]).email@ == email@
                            &&& row == pre.unverified_users@[i0]
                            &&& s.unverified_users@ == pre.unverified_users@.remove(i0)
                        };
                    if !code_matches {
                        proof {
                            assert forall|i: int| !verification_selects(pre, *verification, i) by {
                                if 0 <= i < pre.unverified_users@.len() {
                                    if i != gi && pre.unverified_users@[i].email@ == email@ {
                                        assert(pre.unverified_users@[i].email@
                                            != pre.unverified_users@[gi].email@);
                                    }
                                }
                            }
                        }
                        return Err(TxError::Abort(Error::EmailVerificationWrong));
                    }
                    (row, Ghost(gi))
                },
                None => {
                    return Err(TxError::Abort(Error::Internal));
                },
            }
        },
        EmailVerification::Token { token } => {
            let token_hash = token.hash();
            if s.find_unverified_by_token_hash(&token_hash).is_none() {
                proof {
                    assert forall|i: int| !verification_selects(pre, *verification, i) by {}
                }
                return Err(TxError::Abort(Error::EmailVerificationWrong));
            }
            let taken = s.take_unverified_by_token_hash(&token_hash);
            match taken {
                Some(row) => {
                    let ghost gi = choose|i0: int|
                        {
                            &&& 0 <= i0 < pre.unverified_users@.len()
                            &&& (#[trigger] pre.unverified_users@[i0]).token_hash@ == token_hash@
                            &&& row == pre.unverified_users@[i0]
                            &&& s.unverified_users@ == pre.unverified_users@.remove(i0)
                        };
                    (row, Ghost(gi))
                },
                None => {
                    return Err(TxError::Abort(Error::Internal));
                },
            }
        },
    };
    let ghost i0: int = ghost_i@;
    proof {
        assert(verification_selects(pre, *verification, i0));
    }
    s.delete_email_changes_by_email(row.email.as_str());
    if s.find_user_by_email(row.email.as_str()).is_some() {
        return Err(TxError::Abort(Error::Internal));
    }
    // Try the drawn user IDs in order inside a savepoint: a collision with
    // a stored user undoes only that insert attempt and the next candidate
    // is tried.
    let ghost s1 = *s;
    let mut remaining = user_id_candidates;
    let total = remaining.len();
    let mut k: usize = 0;
    let mut chosen: Option<Vec<u8>> = None;
    while remaining.len() > 0 && chosen.is_none()
        invariant
            *s == s1,
            s.users@ == pre.users@,
            0 <= k,
            user_id_candidates@.len() == total,
            chosen is None ==> k + remaining@.len() == total && remaining@
                =~= user_id_candidates@.subrange(k as int, total as int),
            forall|m: int|
                0 <= m < k ==> user_exists(pre, (#[trigger] user_id_candidates@[m])@),
            chosen matches Some(id) ==> first_free_user_id(pre, user_id_candidates@, k as int)
                && id@ == user_id_candidates@[k as int]@ && k < total,
        decreases remaining@.len(),
    {
        let cand = remaining.remove(0);
        proof {
            assert(cand == user_id_candidates@[k as int]);
            assert(remaining@ =~= user_id_candidates@.subrange(k as int + 1, total as int));
        }
        if s.find_user_by_id(&cand).is_none() {
            chosen = Some(cand);
        } else {
            proof {
                assert(user_exists(pre, user_id_candidates@[k as int]@));
            }
            k = k + 1;
        }
    }
    let new_user_id = match chosen {
        Some(id) => id,
        None => {
            // Every drawn ID collided with a stored user.
            return Err(TxError::Abort(Error::Internal));
        },
    };
    let ghost kk: int = k as int;
    proof {
        assert(first_free_user_id(pre, user_id_candidates@, kk));
    }
    let user_row = crate::store::UserRow {
        id: crypto::clone_bytes(&new_user_id),
        email: row.email,
        name: String::from_str(name.as_str()),
        password_hash: password_hash.clone(),
        accepted_terms_at: row.accepted_terms_at,
    };
    s.insert_user(user_row);
    let ghost mid = *s;
    match tx::create_session_with(s, &new_user_id, candidates) {
        Ok(token) => {
            proof {
                assert(s.users@.last() == mid.users@.last());
                assert(s.unverified_users@ == pre.unverified_users@.remove(i0));
            }
            Ok((new_user_id, token))
        },
        Err(_) => {
            proof {
                assert(s.sessions@ == pre.sessions@);
            }
            Err(TxError::Abort(Error::Internal))
        },
    }
}

/// What changing a password does on success: every session of the user is
/// destroyed, the stored password hash is replaced, and one fresh session
/// is created, whose token is returned.
pub open spec fn password_changed(
    pre: Store,
    post: Store,
    user_id: Seq<u8>,
    new_password_hash: Seq<char>,
    token: Seq<u8>,
) -> bool {
    &&& password_hash_replaced(pre, post, user_id, new_password_hash)
    &&& post.sessions@.len() >= 1
    &&& post.sessions@.last().user_id@ == user_id
    &&& post.sessions@.last().token_hash@ == crypto::sha256_of(token)
    &&& forall|j: int|
        0 <= j < post.sessions@.len() - 1 ==> (#[trigger] post.sessions@[j]).user_id@ != user_id
    &&& forall|j: int|
        0 <= j < post.sessions@.len() - 1 ==> pre.sessions@.contains(#[trigger] post.sessions@[j])
    &&& forall|j: int|
        0 <= j < pre.sessions@.len() && (#[trigger] pre.sessions@[j]).user_id@ != user_id
            ==> post.sessions@.subrange(0, post.sessions@.len() - 1).contains(pre.sessions@[j])
}

/// The user's stored password hash is replaced and every other table and
/// user field is untouched.
pub open spec fn password_hash_replaced(
    pre: Store,
    post: Store,
    user_id: Seq<u8>,
    new_password_hash: Seq<char>,
) -> bool {
    &&& post.users@.len() == pre.users@.len()
    &&& forall|j: int|
        0 <= j < post.users@.len() ==> {
            &&& (#[trigger] post.users@[j]).id@ == pre.users@[j].id@
            &&& post.users@[j].email@ == pre.users@[j].email@
            &&& post.users@[j].name@ == pre.users@[j].name@
            &&& post.users@[j].accepted_terms_at == pre.users@[j].accepted_terms_at
            &&& post.users@[j].password_hash@ == if pre.users@[j].id@ == user_id {
                new_password_hash
            } else {
                pre.users@[j].password_hash@
            }
        }
    &&& post.totp@ == pre.totp@
    &&& post.unverified_users@ == pre.unverified_users@
    &&& post.password_resets@ == pre.password_resets@
    &&& post.email_change_requests@ == pre.email_change_requests@
    &&& post.terms == pre.terms
}

/// What a password change blocked by exhausted session candidates leaves
/// behind: the hash is replaced, the user's sessions are all gone, and
/// every candidate's hash collides with a remaining session.
pub open spec fn password_change_blocked(
    pre: Store,
    post: Store,
    user_id: Seq<u8>,
    new_password_hash: Seq<char>,
    candidates: Seq<Token>,
) -> bool {
    &&& password_hash_replaced(pre, post, user_id, new_password_hash)
    &&& forall|j: int|
        0 <= j < post.sessions@.len() ==> (#[trigger] post.sessions@[j]).user_id@ != user_id
    &&& forall|m: int|
        0 <= m < candidates.len() ==> !session_hash_free(
            post,
            crypto::sha256_of((#[trigger] candidates[m])@),
        )
}

/// Changes the password of the user owning the session with this token
/// hash. Destroying all of the user's sessions is a conventionally expected
/// security feature whenever a password changes; one fresh session is
/// created and its token returned.
pub fn change_password_tx(
    s: &mut Store,
    token_hash: &Vec<u8>,
    credentials: &FirstFactorCredentials,
    new_password_hash: &String,
    candidates: Vec<Token>,
) -> (r: TxResult<Token, Error>)
    requires
        old(s).wf(),
        credentials is First,
    ensures
        final(s).wf(),
        ({
            let password = credentials->First_0->password;
            match r {
                Ok(token) => exists|uid: Seq<u8>|
                    {
                        &&& #[trigger] session_user(*old(s), token_hash@, uid)
                        &&& crate::credentials::password_accepted(*old(s), uid, password@)
                        &&& password_changed(
                            *old(s),
                            *final(s),
                            uid,
                            new_password_hash@,
                            token@,
                        )
                    },
                Err(TxError::Abort(e)) => {
                    ||| (e is AuthFailed && *final(s) == *old(s) && forall|i: int|
                        0 <= i < old(s).sessions@.len() ==> (
                        #[trigger] old(s).sessions@[i]).token_hash@ != token_hash@)
                    ||| (e is FirstFactorCredentialsWrong && *final(s) == *old(s) && exists|
                        uid: Seq<u8>,
                    |
                        #[trigger] session_user(*old(s), token_hash@, uid)
                            && !crate::credentials::password_accepted(*old(s), uid, password@))
                    ||| (e is Internal && *final(s) == *old(s) && exists|i: int|
                        0 <= i < old(s).sessions@.len() && (
                        #[trigger] old(s).sessions@[i]).token_hash@ == token_hash@
                            && !user_exists(*old(s), old(s).sessions@[i].user_id@))
                    ||| (e is Internal && exists|uid: Seq<u8>|
                        {
                            &&& #[trigger] session_user(*old(s), token_hash@, uid)
                            &&& crate::credentials::password_accepted(*old(s), uid, password@)
                            &&& password_change_blocked(
                                *old(s),
                                *final(s),
                                uid,
                                new_password_hash@,
                                candidates@,
                            )
                        })
                },
                Err(TxError::Retry) => false,
            }
        }),
{
    let si = match s.find_session(token_hash) {
        Some(si) => si,
        None => {
            return Err(TxError::Abort(Error::AuthFailed));
        },
    };
    let user_id = crypto::clone_bytes(&s.sessions[si].user_id);
    proof {
        assert(s.sessions@[si as int].token_hash@ == token_hash@);
        assert(s.sessions@[si as int].user_id@ == user_id@);
    }
    match credentials.verify(s, &user_id) {
        Ok(()) => {},
        Err(TxError::Abort(e)) => {
            proof {
                if user_exists(*s, user_id@) {
                    assert(s.sessions@[si as int].token_hash@ == token_hash@);
                    assert(session_user(*s, token_hash@, user_id@));
                }
            }
            return Err(TxError::Abort(e));
        },
        Err(TxError::Retry) => {
            return Err(TxError::Abort(Error::Internal));
        },
    }
    let ghost pre = *s;
    proof {
        assert(session_user(pre, token_hash@, user_id@));
    }
    // Destroying every session of the user, the current one included, is
    // what a password change owes; the caller gets a fresh session below.
    s.delete_sessions_for_user(&user_id);
    let ui = match s.find_user_by_id(&user_id) {
        Some(ui) => ui,
        None => {
            // The password verified, so the user row exists.
            return Err(TxError::Abort(Error::Internal));
        },
    };
    s.set_password_hash(ui, new_password_hash.clone());
    let ghost mid = *s;
    match tx::create_session_with(s, &user_id, candidates) {
        Ok(token) => {
            proof {
                assert forall|j: int|
                    0 <= j < s.sessions@.len() - 1 implies pre.sessions@.contains(
                    #[trigger] s.sessions@[j],
                ) && s.sessions@[j].user_id@ != user_id@ by {
                    assert(s.sessions@[j] == mid.sessions@[j]);
                }
                assert forall|j: int|
                    0 <= j < pre.sessions@.len() && (#[trigger] pre.sessions@[j]).user_id@
                        != user_id@ implies s.sessions@.subrange(
                    0,
                    s.sessions@.len() - 1,
                ).contains(pre.sessions@[j]) by {
                    assert(mid.sessions@.contains(pre.sessions@[j]));
                    let w = choose|w: int|
                        0 <= w < mid.sessions@.len() && mid.sessions@[w] == pre.sessions@[j];
                    assert(s.sessions@.subrange(0, s.sessions@.len() - 1) =~= mid.sessions@);
                }
            }
            Ok(token)
        },
        Err(_) => {
            proof {
                assert(s.sessions@ == mid.sessions@);
            }
            Err(TxError::Abort(Error::Internal))
        },
    }
}

/// Changes the display name of the user owning the session with this token
/// hash.
pub fn change_name_tx(s: &mut Store, token_hash: &Vec<u8>, name: &UserName) -> (r: TxResult<
    (),
    Error,
>)
    requires
        old(s).wf(),
    ensures
        final(s).wf(),
        match r {
            Ok(()) => exists|uid: Seq<u8>|
                {
                    &&& #[trigger] session_user(*old(s), token_hash@, uid)
                    &&& final(s).users@.len() == old(s).users@.len()
                    &&& forall|j: int|
                        0 <= j < final(s).users@.len() ==> {
                            &&& (#[trigger] final(s).users@[j]).id@ == old(s).users@[j].id@
                            &&& final(s).users@[j].email@ == old(s).users@[j].email@
                            &&& final(s).users@[j].password_hash@ == old(s).users@[j].password_hash@
                            &&& final(s).users@[j].accepted_terms_at == old(s).users@[j].accepted_terms_at
                            &&& final(s).users@[j].name@ == if old(s).users@[j].id@ == uid {
                                name@
                            } else {
                                old(s).users@[j].name@
                            }
                        }
                    &&& final(s).sessions@ == old(s).sessions@
                    &&& final(s).totp@ == old(s).totp@
                    &&& final(s).unverified_users@ == old(s).unverified_users@
                    &&& final(s).password_resets@ == old(s).password_resets@
                    &&& final(s).email_change_requests@ == old(s).email_change_requests@
                    &&& final(s).terms == old(s).terms
                },
            Err(TxError::Abort(e)) => e is AuthFailed && *final(s) == *old(s)
                && session_unauthenticated(*old(s), token_hash@),
            Err(TxError::Retry) => false,
        },
{
    let si = match s.find_session(token_hash) {
        Some(si) => si,
        None => {
            return Err(TxError::Abort(Error::AuthFailed));
        },
    };
    let user_id = crypto::clone_bytes(&s.sessions[si].user_id);
    proof {
        assert(s.sessions@[si as int].token_hash@ == token_hash@);
        assert(s.sessions@[si as int].user_id@ == user_id@);
    }
    match s.find_user_by_id(&user_id) {
        Some(ui) => {
            s.set_name(ui, String::from_str(name.as_str()));
            proof {
                assert(session_user(*old(s), token_hash@, user_id@));
            }
            Ok(())
        },
        None => {
            // The user row is gone: there is nothing to rename. The
            // session is dangling, so authentication fails.
            proof {
                assert forall|i: int, j: int|
                    0 <= i < s.sessions@.len() && 0 <= j < s.users@.len() && (
                    #[trigger] s.sessions@[i]).token_hash@ == token_hash@ implies (
                #[trigger] s.users@[j]).id@ != s.sessions@[i].user_id@ by {
                    if i != si {
                        assert(s.sessions@[i].token_hash@ != s.sessions@[si as int].token_hash@);
                    }
                }
            }
            return Err(TxError::Abort(Error::AuthFailed));
        },
    }
}

/// Gets the ID and display name of the user owning the session with this
/// token hash.
pub fn current_user_tx(s: &Store, token_hash: &Vec<u8>) -> (r: TxResult<(Vec<u8>, String), Error>)
    requires
        s.wf(),
    ensures
        match r {
            Ok((user_id, name)) => exists|j: int|
                {
                    &&& 0 <= j < s.users@.len()
                    &&& session_user(*s, token_hash@, (#[trigger] s.users@[j]).id@)
                    &&& user_id@ == s.users@[j].id@
                    &&& name@ == s.users@[j].name@
                },
            Err(TxError::Abort(e)) => e is AuthFailed && session_unauthenticated(*s, token_hash@),
            Err(TxError::Retry) => false,
        },
{
    match s.find_user_by_session(token_hash) {
        Some(j) => {
            proof {
                assert(session_user(*s, token_hash@, s.users@[j as int].id@));
            }
            Ok((crypto::clone_bytes(&s.users[j].id), s.users[j].name.clone()))
        },
        None => Err(TxError::Abort(Error::AuthFailed)),
    }
}

/// Gets the private settings of the user owning the session with this token
/// hash: the email address and whether a second factor is enabled.
pub fn user_settings_tx(s: &Store, token_hash: &Vec<u8>) -> (r: TxResult<(String, bool), Error>)
    requires
        s.wf(),
    ensures
        match r {
            Ok((email, totp_enabled)) => exists|j: int|
                {
                    &&& 0 <= j < s.users@.len()
                    &&& session_user(*s, token_hash@, (#[trigger] s.users@[j]).id@)
                    &&& email@ == s.users@[j].email@
                    &&& totp_enabled == crate::credentials::second_factor_enabled(
                        *s,
                        s.users@[j].id@,
                    )
                },
            Err(TxError::Abort(e)) => e is AuthFailed && session_unauthenticated(*s, token_hash@),
            Err(TxError::Retry) => false,
        },
{
    match s.find_user_by_session(token_hash) {
        Some(j) => {
            proof {
                assert(session_user(*s, token_hash@, s.users@[j as int].id@));
            }
            let enabled = s.find_totp(&s.users[j].id).is_some();
            Ok((s.users[j].email.clone(), enabled))
        },
        None => Err(TxError::Abort(Error::AuthFailed)),
    }
}

/// A value used to query a single session.
pub enum SessionQuery {
    /// Queries the current authenticated session.
    Current,
    /// Queries a session by its ID, which is its token hash.
    Id(Vec<u8>),
}

impl SessionQuery {
    /// Parses a session query from its path form: the word for the current
    /// session, or a session ID in hexadecimal.
    pub fn from_str(input: &str) -> (r: Option<SessionQuery>)
        ensures
            match r {
                Some(q) => match q {
                    SessionQuery::Current => input@ == "$current"@,
                    SessionQuery::Id(id) => crate::token::hex_of(id@) == input@ && id@.len() == 32,
                },
                None => input@ != "$current"@ && !crate::token::is_hex_seq(input@, 32),
            },
    {
        if crypto::str_eq(input, "$current") {
            return Some(SessionQuery::Current);
        }
        match crate::token::bytes_from_hex(input, 32) {
            Some(id) => Some(SessionQuery::Id(id)),
            None => None,
        }
    }
}

/// Deletes a session. Only the current session may be deleted: asking for
/// another session's ID is denied, and deleting a session that is already
/// gone reports that nothing was found.
pub fn delete_session_tx(s: &mut Store, token_hash: &Vec<u8>, query: &SessionQuery) -> (r:
    TxResult<(), Error>)
    requires
        old(s).wf(),
    ensures
        final(s).wf(),
        match r {
            Ok(()) => {
                &&& exists|i: int|
                    {
                        &&& 0 <= i < old(s).sessions@.len()
                        &&& (#[trigger] old(s).sessions@[i]).token_hash@ == token_hash@
                        &&& final(s).sessions@ == old(s).sessions@.remove(i)
                    }
                &&& final(s).users@ == old(s).users@
                &&& final(s).totp@ == old(s).totp@
                &&& final(s).unverified_users@ == old(s).unverified_users@
                &&& final(s).password_resets@ == old(s).password_resets@
                &&& final(s).email_change_requests@ == old(s).email_change_requests@
                &&& final(s).terms == old(s).terms
            },
            Err(TxError::Abort(e)) => {
                &&& *final(s) == *old(s)
                &&& {
                    ||| (e is AccessDenied && (query matches SessionQuery::Id(id) && id@
                        != token_hash@))
                    ||| (e is ResourceNotFound && (query is Current || (
                    query matches SessionQuery::Id(id) && id@ == token_hash@)) && (forall|i: int|
                        0 <= i < old(s).sessions@.len() ==> (
                        #[trigger] old(s).sessions@[i]).token_hash@ != token_hash@))
                }
            },
            Err(TxError::Retry) => false,
        },
{
    match query {
        SessionQuery::Id(id) => {
            if !crypto::bytes_eq(id, token_hash) {
                // Deleting a session other than the current one is not
                // offered, to keep session IDs from being probed.
                return Err(TxError::Abort(Error::AccessDenied));
            }
        },
        SessionQuery::Current => {},
    }
    if s.find_session(token_hash).is_none() {
        return Err(TxError::Abort(Error::ResourceNotFound));
    }
    let ghost pre = *s;
    if s.delete_session(token_hash) {
        Ok(())
    } else {
        Err(TxError::Abort(Error::Internal))
    }
}
/// The password of the user owning this session is right: used by the
/// flows that demand a fresh password check before touching second-factor
/// state.
pub open spec fn session_password_ok(s: Store, token_hash: Seq<u8>, password: Seq<char>) -> bool {
    exists|j: int|
        {
            &&& 0 <= j < s.users@.len()
            &&& session_user(s, token_hash, (#[trigger] s.users@[j]).id@)
            &&& argon2_verifies(password, s.users@[j].password_hash@)
        }
}

/// The password of the user owning this session is wrong.
pub open spec fn session_password_wrong(s: Store, token_hash: Seq<u8>, password: Seq<char>) -> bool {
    exists|j: int|
        {
            &&& 0 <= j < s.users@.len()
            &&& session_user(s, token_hash, (#[trigger] s.users@[j]).id@)
            &&& !argon2_verifies(password, s.users@[j].password_hash@)
        }
}

/// Disables the second factor for the user owning the session with this
/// token hash, after checking the password. Requiring a second factor to
/// disable the second factor would risk locking users out, which is the
/// riskier failure; the password alone is demanded. Returns whether a
/// configuration existed.
pub fn disable_totp_tx(s: &mut Store, token_hash: &Vec<u8>, password: &UserPassword) -> (r:
    TxResult<bool, Error>)
    requires
        old(s).wf(),
    ensures
        final(s).wf(),
        match r {
            Ok(deleted) => {
                &&& session_password_ok(*old(s), token_hash@, password@)
                &&& final(s).users@ == old(s).users@
                &&& final(s).sessions@ == old(s).sessions@
                &&& final(s).unverified_users@ == old(s).unverified_users@
                &&& final(s).password_resets@ == old(s).password_resets@
                &&& final(s).email_change_requests@ == old(s).email_change_requests@
                &&& final(s).terms == old(s).terms
                &&& if deleted {
                    exists|i: int|
                        {
                            &&& 0 <= i < old(s).totp@.len()
                            &&& exists|j: int|
                                0 <= j < old(s).users@.len() && session_user(
                                    *old(s),
                                    token_hash@,
                                    (#[trigger] old(s).users@[j]).id@,
                                ) && old(s).totp@[i].user_id@ == old(s).users@[j].id@
                            &&& final(s).totp@ == old(s).totp@.remove(i)
                        }
                } else {
                    &&& final(s).totp@ == old(s).totp@
                    &&& exists|j: int|
                        0 <= j < old(s).users@.len() && session_user(
                            *old(s),
                            token_hash@,
                            (#[trigger] old(s).users@[j]).id@,
                        ) && (forall|i: int|
                            0 <= i < old(s).totp@.len() ==> (#[trigger] old(s).totp@[i]).user_id@
                                != old(s).users@[j].id@)
                }
            },
            Err(TxError::Abort(e)) => {
                &&& *final(s) == *old(s)
                &&& {
                    ||| (e is AuthFailed && session_unauthenticated(*old(s), token_hash@))
                    ||| (e is UserCredentialsWrong && session_password_wrong(
                        *old(s),
                        token_hash@,
                        password@,
                    ))
                }
            },
            Err(TxError::Retry) => false,
        },
{
    let j = match s.find_user_by_session(token_hash) {
        Some(j) => j,
        None => {
            return Err(TxError::Abort(Error::AuthFailed));
        },
    };
    proof {
        assert(session_user(*s, token_hash@, s.users@[j as int].id@));
    }
    if !crypto::verify_hash(password.as_str(), s.users[j].password_hash.as_str()) {
        return Err(TxError::Abort(Error::UserCredentialsWrong));
    }
    let user_id = crypto::clone_bytes(&s.users[j].id);
    let ghost uj: int = j as int;
    let deleted = s.delete_totp_for_user(&user_id);
    proof {
        if !deleted {
            assert(session_user(*old(s), token_hash@, old(s).users@[uj].id@));
        }
    }
    Ok(deleted)
}

/// Completes a second-factor enrollment: checks the password, checks the
/// submitted code against the enrollment secret, and stores the verified
/// configuration with the freshly generated backup codes; the submitted
/// code is recorded as last used from the start, so it can never be
/// replayed. A user who already has a configuration gets a conflict.
pub fn enable_totp_tx(
    s: &mut Store,
    token_hash: &Vec<u8>,
    password: &UserPassword,
    secret: &crate::validation::TotpSecret,
    otp: &crate::validation::Otp,
    time: u64,
    backup_codes: Vec<String>,
) -> (r: TxResult<(), Error>)
    requires
        old(s).wf(),
    ensures
        final(s).wf(),
        match r {
            Ok(()) => {
                &&& session_password_ok(*old(s), token_hash@, password@)
                &&& crate::crypto::totp_accepted(secret@, otp@, time)
                &&& final(s).users@ == old(s).users@
                &&& final(s).sessions@ == old(s).sessions@
                &&& final(s).unverified_users@ == old(s).unverified_users@
                &&& final(s).password_resets@ == old(s).password_resets@
                &&& final(s).email_change_requests@ == old(s).email_change_requests@
                &&& final(s).terms == old(s).terms
                &&& final(s).totp@.len() == old(s).totp@.len() + 1
                &&& final(s).totp@ == old(s).totp@.push(final(s).totp@.last())
                &&& exists|j: int|
                    0 <= j < old(s).users@.len() && session_user(
                        *old(s),
                        token_hash@,
                        (#[trigger] old(s).users@[j]).id@,
                    ) && final(s).totp@.last().user_id@ == old(s).users@[j].id@ && !
                    crate::credentials::second_factor_enabled(*old(s), old(s).users@[j].id@)
                &&& final(s).totp@.last().secret matches Some(sec) && sec@ == secret@
                &&& final(s).totp@.last().unverified_secret is None
                &&& final(s).totp@.last().otp_used_last matches Some(last) && last@ == otp@
                &&& final(s).totp@.last().otp_used_2nd_to_last is None
                &&& final(s).totp@.last().unused_backup_codes@ == backup_codes@
            },
            Err(TxError::Abort(e)) => {
                &&& *final(s) == *old(s)
                &&& {
                    ||| (e is AuthFailed && session_unauthenticated(*old(s), token_hash@))
                    ||| (e is UserCredentialsWrong && session_password_wrong(
                        *old(s),
                        token_hash@,
                        password@,
                    ))
                    ||| (e is OtpWrong && session_password_ok(*old(s), token_hash@, password@)
                        && !crate::crypto::totp_accepted(secret@, otp@, time))
                    ||| (e is AlreadyExists && session_password_ok(*old(s), token_hash@, password@)
                        && crate::crypto::totp_accepted(secret@, otp@, time) && exists|j: int|
                        0 <= j < old(s).users@.len() && session_user(
                            *old(s),
                            token_hash@,
                            (#[trigger] old(s).users@[j]).id@,
                        ) && crate::credentials::second_factor_enabled(
                            *old(s),
                            old(s).users@[j].id@,
                        ))
                }
            },
            Err(TxError::Retry) => false,
        },
{
    let j = match s.find_user_by_session(token_hash) {
        Some(j) => j,
        None => {
            return Err(TxError::Abort(Error::AuthFailed));
        },
    };
    proof {
        assert(session_user(*s, token_hash@, s.users@[j as int].id@));
    }
    if !crypto::verify_hash(password.as_str(), s.users[j].password_hash.as_str()) {
        return Err(TxError::Abort(Error::UserCredentialsWrong));
    }
    if !crypto::verify_totp(otp.as_str(), secret.as_bytes(), time) {
        return Err(TxError::Abort(Error::OtpWrong));
    }
    let user_id = crypto::clone_bytes(&s.users[j].id);
    if s.find_totp(&user_id).is_some() {
        // The user already has a second-factor configuration.
        return Err(TxError::Abort(Error::AlreadyExists));
    }
    let row = crate::store::TotpRow {
        user_id,
        secret: Some(crypto::clone_bytes(secret.as_bytes())),
        unverified_secret: None,
        otp_used_last: Some(String::from_str(otp.as_str())),
        otp_used_2nd_to_last: None,
        unused_backup_codes: backup_codes,
    };
    s.insert_totp(row);
    Ok(())
}

/// Begins a second-factor enrollment: checks the password, discards any
/// unconfirmed enrollment, and stores the new unverified secret. A user
/// with a confirmed configuration gets a conflict. Returns the user's email
/// for building the enrollment URI.
pub fn totp_request_tx(
    s: &mut Store,
    token_hash: &Vec<u8>,
    password: &UserPassword,
    unverified_secret: Vec<u8>,
) -> (r: TxResult<String, Error>)
    requires
        old(s).wf(),
    ensures
        final(s).wf(),
        final(s).users@ == old(s).users@,
        final(s).sessions@ == old(s).sessions@,
        final(s).unverified_users@ == old(s).unverified_users@,
        final(s).password_resets@ == old(s).password_resets@,
        final(s).email_change_requests@ == old(s).email_change_requests@,
        final(s).terms == old(s).terms,
        match r {
            Ok(email) => exists|j: int|
                {
                    &&& 0 <= j < old(s).users@.len()
                    &&& session_user(*old(s), token_hash@, (#[trigger] old(s).users@[j]).id@)
                    &&& argon2_verifies(password@, old(s).users@[j].password_hash@)
                    &&& email@ == old(s).users@[j].email@
                    &&& {
                        let uid = old(s).users@[j].id@;
                        &&& final(s).totp@.len() >= 1
                        &&& final(s).totp@.last().user_id@ == uid
                        &&& final(s).totp@.last().unverified_secret matches Some(sec) && sec@
                            == unverified_secret@
                        &&& final(s).totp@.last().secret is None
                        // Every other user's configuration is untouched: the
                        // final table is the old one less at most the user's
                        // own unconfirmed row, plus the new row.
                        &&& (final(s).totp@ == old(s).totp@.push(final(s).totp@.last()) || exists|
                            i: int,
                        |
                            {
                                &&& 0 <= i < old(s).totp@.len()
                                &&& (#[trigger] old(s).totp@[i]).user_id@ == uid
                                &&& old(s).totp@[i].unverified_secret is Some
                                &&& final(s).totp@ == old(s).totp@.remove(i).push(
                                    final(s).totp@.last(),
                                )
                            })
                    }
                },
            Err(TxError::Abort(e)) => {
                ||| (e is AuthFailed && final(s).totp@ == old(s).totp@
                    && session_unauthenticated(*old(s), token_hash@))
                ||| (e is UserCredentialsWrong && final(s).totp@ == old(s).totp@
                    && session_password_wrong(*old(s), token_hash@, password@))
                ||| (e is AlreadyExists && final(s).totp@ == old(s).totp@ && exists|j: int|
                    {
                        &&& 0 <= j < old(s).users@.len()
                        &&& session_user(*old(s), token_hash@, (#[trigger] old(s).users@[j]).id@)
                        &&& argon2_verifies(password@, old(s).users@[j].password_hash@)
                        &&& exists|i: int|
                            0 <= i < old(s).totp@.len() && (#[trigger] old(s).totp@[i]).user_id@
                                == old(s).users@[j].id@ && old(s).totp@[i].unverified_secret
                                is None
                    })
            },
            Err(TxError::Retry) => false,
        },
{
    let j = match s.find_user_by_session(token_hash) {
        Some(j) => j,
        None => {
            return Err(TxError::Abort(Error::AuthFailed));
        },
    };
    proof {
        assert(session_user(*s, token_hash@, s.users@[j as int].id@));
    }
    if !crypto::verify_hash(password.as_str(), s.users[j].password_hash.as_str()) {
        return Err(TxError::Abort(Error::UserCredentialsWrong));
    }
    let user_id = crypto::clone_bytes(&s.users[j].id);
    let ghost uj: int = j as int;
    let email = s.users[j].email.clone();
    let ghost pre = *s;
    let dropped = s.delete_unverified_totp_for_user(&user_id);
    if s.find_totp(&user_id).is_some() {
        // Only a confirmed configuration can remain here: the user already
        // has the second factor fully enabled, and nothing was dropped
        // because that configuration is not an unconfirmed one.
        proof {
            assert(session_user(pre, token_hash@, pre.users@[uj].id@));
            if dropped {
                let i = choose|i: int|
                    {
                        &&& 0 <= i < pre.totp@.len()
                        &&& (#[trigger] pre.totp@[i]).user_id@ == user_id@
                        &&& pre.totp@[i].unverified_secret is Some
                        &&& s.totp@ == pre.totp@.remove(i)
                    };
                let i2 = choose|i2: int|
                    0 <= i2 < s.totp@.len() && (#[trigger] s.totp@[i2]).user_id@ == user_id@;
                pre.totp@.remove_ensures(i);
                let i3: int = if i2 < i { i2 } else { i2 + 1 };
                assert(s.totp@[i2] == pre.totp@[i3]);
                assert(pre.totp@[i3].user_id@ == pre.totp@[i].user_id@);
                assert(false);
            }
            assert(s.totp@ == pre.totp@);
        }
        return Err(TxError::Abort(Error::AlreadyExists));
    }
    let row = crate::store::TotpRow {
        user_id,
        secret: None,
        unverified_secret: Some(unverified_secret),
        otp_used_last: None,
        otp_used_2nd_to_last: None,
        unused_backup_codes: Vec::new(),
    };
    s.insert_totp(row);
    proof {
        assert(session_user(pre, token_hash@, pre.users@[uj].id@));
    }
    Ok(email)
}
/// The decision of a flow that must not reveal whether its target email is
/// taken: either a notice goes to the existing owner, or a verification
/// message with a fresh token goes out. The HTTP response is the same in
/// both cases, to prevent user enumeration; only the outgoing email
/// differs.
pub enum SendDecision {
    /// The email is taken: notify its owner, carrying their display name.
    EmailTaken(String),
    /// A verification token was stored for the email; send it.
    Verification,
}

/// Begins email verification for a new user: if the email is taken the
/// decision is to notify its owner; otherwise any previous request for the
/// email is expired and a fresh one stored under the hash of the given
/// token. A token-hash collision asks for the whole unit of work to be
/// rerun with a fresh token.
pub fn request_email_verification_tx(
    s: &mut Store,
    email: &str,
    accepted_terms_at: i64,
    token: &Token,
) -> (r: TxResult<SendDecision, Error>)
    requires
        old(s).wf(),
    ensures
        final(s).wf(),
        final(s).users@ == old(s).users@,
        final(s).sessions@ == old(s).sessions@,
        final(s).totp@ == old(s).totp@,
        final(s).password_resets@ == old(s).password_resets@,
        final(s).email_change_requests@ == old(s).email_change_requests@,
        final(s).terms == old(s).terms,
        match r {
            Ok(SendDecision::EmailTaken(name)) => {
                &&& final(s).unverified_users@ == old(s).unverified_users@
                &&& exists|j: int|
                    0 <= j < old(s).users@.len() && (#[trigger] old(s).users@[j]).email@ == email@
                        && name@ == old(s).users@[j].name@
            },
            Ok(SendDecision::Verification) => {
                &&& !email_known(*old(s), email@)
                &&& final(s).unverified_users@.len() >= 1
                &&& final(s).unverified_users@.last().token_hash@ == crypto::sha256_of(token@)
                &&& final(s).unverified_users@.last().email@ == email@
                &&& final(s).unverified_users@.last().code_hash is None
                &&& final(s).unverified_users@.last().accepted_terms_at == accepted_terms_at
                &&& forall|i: int|
                    0 <= i < final(s).unverified_users@.len() - 1 ==> (#[trigger] final(s).unverified_users@[i]).email@ != email@
            },
            Err(TxError::Abort(_)) => false,
            Err(TxError::Retry) => !email_known(*old(s), email@) && exists|i: int|
                0 <= i < old(s).unverified_users@.len() && (#[trigger] old(s).unverified_users@[i]).token_hash@ == crypto::sha256_of(token@) && old(s).unverified_users@[i].email@ != email@,
        },
{
    match s.find_user_by_email(email) {
        Some(j) => {
            // The email is taken. The outward response must not say so.
            return Ok(SendDecision::EmailTaken(s.users[j].name.clone()));
        },
        None => {},
    }
    // Expire any previous email verification request for this address.
    let expired = s.take_unverified_by_email(email);
    let token_hash = token.hash();
    match s.find_unverified_by_token_hash(&token_hash) {
        Some(_) => {
            // The fresh token's hash collided with another live request:
            // rerun the whole unit of work with a new token.
            return Err(TxError::Retry);
        },
        None => {},
    }
    let row = crate::store::UnverifiedUserRow {
        token_hash,
        email: String::from_str(email),
        code_hash: None,
        accepted_terms_at,
    };
    s.insert_unverified(row);
    Ok(SendDecision::Verification)
}

/// Checks an existing email verification request by its token, returning
/// the email address it verifies.
pub fn check_email_verification_tx(s: &Store, token: &Token) -> (r: TxResult<String, Error>)
    requires
        s.wf(),
    ensures
        match r {
            Ok(email) => exists|i: int|
                {
                    &&& 0 <= i < s.unverified_users@.len()
                    &&& (#[trigger] s.unverified_users@[i]).token_hash@ == crypto::sha256_of(
                        token@,
                    )
                    &&& email@ == s.unverified_users@[i].email@
                },
            Err(TxError::Abort(e)) => e is ResourceNotFound && forall|i: int|
                0 <= i < s.unverified_users@.len() ==> (#[trigger] s.unverified_users@[i]).token_hash@
                    != crypto::sha256_of(token@),
            Err(TxError::Retry) => false,
        },
{
    let token_hash = token.hash();
    match s.find_unverified_by_token_hash(&token_hash) {
        Some(i) => Ok(s.unverified_users[i].email.clone()),
        None => Err(TxError::Abort(Error::ResourceNotFound)),
    }
}

/// Issues a short verification code for an existing email verification
/// request: stores the salted hash of the code under the request found by
/// its token, returning the request's email.
pub fn set_verification_code_tx(s: &mut Store, token: &Token, code_hash: String) -> (r: TxResult<
    String,
    Error,
>)
    requires
        old(s).wf(),
    ensures
        final(s).wf(),
        final(s).users@ == old(s).users@,
        final(s).sessions@ == old(s).sessions@,
        final(s).totp@ == old(s).totp@,
        final(s).password_resets@ == old(s).password_resets@,
        final(s).email_change_requests@ == old(s).email_change_requests@,
        final(s).terms == old(s).terms,
        match r {
            Ok(email) => exists|i: int|
                {
                    &&& 0 <= i < old(s).unverified_users@.len()
                    &&& (#[trigger] old(s).unverified_users@[i]).token_hash@ == crypto::sha256_of(
                        token@,
                    )
                    &&& email@ == old(s).unverified_users@[i].email@
                    &&& final(s).unverified_users@ == old(s).unverified_users@.update(
                        i,
                        final(s).unverified_users@[i],
                    )
                    &&& final(s).unverified_users@[i].token_hash@ == old(s).unverified_users@[i].token_hash@
                    &&& final(s).unverified_users@[i].email@ == old(s).unverified_users@[i].email@
                    &&& final(s).unverified_users@[i].accepted_terms_at == old(s).unverified_users@[i].accepted_terms_at
                    &&& final(s).unverified_users@[i].code_hash matches Some(h) && h@ == code_hash@
                },
            Err(TxError::Abort(e)) => {
                &&& e is ResourceNotFound
                &&& final(s).unverified_users@ == old(s).unverified_users@
                &&& forall|i: int|
                    0 <= i < old(s).unverified_users@.len() ==> (#[trigger] old(s).unverified_users@[i]).token_hash@ != crypto::sha256_of(token@)
            },
            Err(TxError::Retry) => false,
        },
{
    let token_hash = token.hash();
    match s.set_unverified_code_hash(&token_hash, code_hash) {
        Some(email) => Ok(email),
        None => Err(TxError::Abort(Error::ResourceNotFound)),
    }
}

/// Begins a password reset: if no user owns the email the decision is to
/// send a failure notice; otherwise any previous reset request of the user
/// is expired and a fresh one stored under the hash of the given token. A
/// token-hash collision asks for a rerun with a fresh token.
pub fn password_reset_request_tx(s: &mut Store, email: &str, token: &Token) -> (r: TxResult<
    SendDecision,
    Error,
>)
    requires
        old(s).wf(),
    ensures
        final(s).wf(),
        final(s).users@ == old(s).users@,
        final(s).sessions@ == old(s).sessions@,
        final(s).totp@ == old(s).totp@,
        final(s).unverified_users@ == old(s).unverified_users@,
        final(s).email_change_requests@ == old(s).email_change_requests@,
        final(s).terms == old(s).terms,
        match r {
            Ok(SendDecision::EmailTaken(name)) => {
                // For a password reset the outgoing failure notice carries
                // no name; the variant is unused here.
                false
            },
            Ok(SendDecision::Verification) => {
                if !email_known(*old(s), email@) {
                    *final(s) == *old(s)
                } else {
                    exists|j: int|
                        {
                            &&& 0 <= j < old(s).users@.len()
                            &&& (#[trigger] old(s).users@[j]).email@ == email@
                            &&& {
                                let uid = old(s).users@[j].id@;
                                &&& final(s).password_resets@.len() >= 1
                                &&& final(s).password_resets@.last().token_hash@
                                    == crypto::sha256_of(token@)
                                &&& final(s).password_resets@.last().user_id@ == uid
                                &&& forall|i: int|
                                    0 <= i < old(s).password_resets@.len() && (#[trigger] old(s).password_resets@[i]).user_id@ != uid ==> old(s).password_resets@[i].token_hash@ != crypto::sha256_of(token@)
                                &&& forall|m: int|
                                    0 <= m < final(s).password_resets@.len() - 1 ==> (
                                    #[trigger] final(s).password_resets@[m]).user_id@ != uid
                                        && old(s).password_resets@.contains(
                                        final(s).password_resets@[m],
                                    )
                                &&& forall|i: int|
                                    0 <= i < old(s).password_resets@.len() && (#[trigger] old(s).password_resets@[i]).user_id@ != uid ==> final(s).password_resets@.subrange(
                                        0,
                                        final(s).password_resets@.len() - 1,
                                    ).contains(old(s).password_resets@[i])
                            }
                        }
                }
            },
            Err(TxError::Abort(_)) => false,
            Err(TxError::Retry) => exists|j: int|
                {
                    &&& 0 <= j < old(s).users@.len()
                    &&& (#[trigger] old(s).users@[j]).email@ == email@
                    &&& exists|i: int|
                        0 <= i < old(s).password_resets@.len() && (#[trigger] old(s).password_resets@[i]).token_hash@ == crypto::sha256_of(token@) && old(s).password_resets@[i].user_id@ != old(s).users@[j].id@
                    &&& forall|m: int|
                        0 <= m < final(s).password_resets@.len() ==> (#[trigger] final(s).password_resets@[m]).user_id@ != old(s).users@[j].id@ && old(s).password_resets@.contains(final(s).password_resets@[m])
                },
        },
{
    let ghost pre = *s;
    let j = match s.find_user_by_email(email) {
        Some(j) => j,
        None => {
            // To prevent user enumeration the caller responds identically;
            // only the outgoing mail differs (a failure notice).
            return Ok(SendDecision::Verification);
        },
    };
    let ghost uj: int = j as int;
    let user_id = crypto::clone_bytes(&s.users[j].id);
    // Expire any previous password reset request of this user.
    s.delete_password_resets_for_user(&user_id);
    let ghost mid = *s;
    let token_hash = token.hash();
    match s.find_password_reset(&token_hash) {
        Some(c) => {
            // The fresh token's hash collided with another user's live
            // request: rerun the whole unit of work with a new token.
            proof {
                assert(pre.users@[uj].email@ == email@);
                assert(mid.password_resets@[c as int].user_id@ != user_id@);
                assert(pre.password_resets@.contains(mid.password_resets@[c as int]));
                let w = choose|w: int|
                    0 <= w < pre.password_resets@.len() && pre.password_resets@[w]
                        == mid.password_resets@[c as int];
                assert((#[trigger] pre.password_resets@[w]).token_hash@ == crypto::sha256_of(
                    token@,
                ) && pre.password_resets@[w].user_id@ != pre.users@[uj].id@);
            }
            return Err(TxError::Retry);
        },
        None => {},
    }
    let row = crate::store::PasswordResetRow { token_hash, user_id };
    s.insert_password_reset(row);
    proof {
        assert(pre.users@[uj].email@ == email@);
        assert(s.password_resets@.subrange(0, s.password_resets@.len() - 1)
            =~= mid.password_resets@);
        assert forall|i: int|
            0 <= i < pre.password_resets@.len() && (#[trigger] pre.password_resets@[i]).user_id@
                != pre.users@[uj].id@ implies pre.password_resets@[i].token_hash@
            != crypto::sha256_of(token@) by {
            assert(mid.password_resets@.contains(pre.password_resets@[i]));
            let w = choose|w: int|
                0 <= w < mid.password_resets@.len() && mid.password_resets@[w]
                    == pre.password_resets@[i];
            assert(mid.password_resets@[w].token_hash@ != token_hash@);
        }
    }
    Ok(SendDecision::Verification)
}

/// Checks an existing password reset request by its token, returning the
/// email of the user whose password would be reset.
pub fn check_password_reset_tx(s: &Store, token: &Token) -> (r: TxResult<String, Error>)
    requires
        s.wf(),
    ensures
        match r {
            Ok(email) => exists|i: int, j: int|
                {
                    &&& 0 <= i < s.password_resets@.len()
                    &&& 0 <= j < s.users@.len()
                    &&& (#[trigger] s.password_resets@[i]).token_hash@ == crypto::sha256_of(token@)
                    &&& (#[trigger] s.users@[j]).id@ == s.password_resets@[i].user_id@
                    &&& email@ == s.users@[j].email@
                },
            Err(TxError::Abort(e)) => e is ResourceNotFound && forall|i: int, j: int|
                0 <= i < s.password_resets@.len() && 0 <= j < s.users@.len() && (
                #[trigger] s.password_resets@[i]).token_hash@ == crypto::sha256_of(token@) ==> (
                #[trigger] s.users@[j]).id@ != s.password_resets@[i].user_id@,
            Err(TxError::Retry) => false,
        },
{
    let token_hash = token.hash();
    let i = match s.find_password_reset(&token_hash) {
        Some(i) => i,
        None => {
            return Err(TxError::Abort(Error::ResourceNotFound));
        },
    };
    match s.find_user_by_id(&s.password_resets[i].user_id) {
        Some(j) => Ok(s.users[j].email.clone()),
        None => {
            proof {
                assert forall|i2: int, j2: int|
                    0 <= i2 < s.password_resets@.len() && 0 <= j2 < s.users@.len() && (
                    #[trigger] s.password_resets@[i2]).token_hash@ == crypto::sha256_of(token@)
                    implies (#[trigger] s.users@[j2]).id@ != s.password_resets@[i2].user_id@ by {
                    if i2 != i as int {
                        assert(s.password_resets@[i2].token_hash@
                            != s.password_resets@[i as int].token_hash@);
                    }
                }
            }
            Err(TxError::Abort(Error::ResourceNotFound))
        },
    }
}

/// The reset request at this index is consumed and nothing else changes.
pub open spec fn reset_consumed(pre: Store, mid: Store, i: int) -> bool {
    &&& mid.password_resets@ == pre.password_resets@.remove(i)
    &&& mid.users@ == pre.users@
    &&& mid.sessions@ == pre.sessions@
    &&& mid.totp@ == pre.totp@
    &&& mid.unverified_users@ == pre.unverified_users@
    &&& mid.email_change_requests@ == pre.email_change_requests@
    &&& mid.terms == pre.terms
}

/// The optional second factor passed: supplied credentials went through one
/// accepted verification attempt; absent ones are accepted exactly when no
/// second-factor method is enabled.
pub open spec fn optional_second_factor_passed(
    mid: Store,
    post: Store,
    uid: Seq<u8>,
    credentials: crate::credentials::SecondFactorCredentials,
    time: u64,
) -> bool {
    match credentials->Second_0 {
        Some(c) => crate::credentials::second_factor_outcome(mid, post, uid, c->otp@, time, Ok(())),
        None => post == mid && !crate::credentials::second_factor_enabled(mid, uid),
    }
}

/// The optional second factor failed: supplied credentials went through one
/// rejected verification attempt; absent ones are rejected exactly when a
/// second-factor method is enabled.
pub open spec fn optional_second_factor_failed(
    mid: Store,
    post: Store,
    uid: Seq<u8>,
    credentials: crate::credentials::SecondFactorCredentials,
    time: u64,
) -> bool {
    match credentials->Second_0 {
        Some(c) => crate::credentials::second_factor_outcome(
            mid,
            post,
            uid,
            c->otp@,
            time,
            Err(TxError::Abort(Error::SecondFactorCredentialsWrong)),
        ),
        None => post == mid && crate::credentials::second_factor_enabled(mid, uid),
    }
}

/// Fulfills a password reset: consumes the reset request found by its
/// token, verifies the optional second factor, replaces the password hash,
/// expires every session of the user, and signs them in with a fresh
/// session.
pub fn reset_password_tx(
    s: &mut Store,
    token: &Token,
    credentials: &crate::credentials::SecondFactorCredentials,
    new_password_hash: &String,
    time: u64,
    candidates: Vec<Token>,
) -> (r: TxResult<(Vec<u8>, String, Token), Error>)
    requires
        old(s).wf(),
        credentials is Second,
    ensures
        final(s).wf(),
        match r {
            Ok((user_id, name, session_token)) => {
                &&& exists|i: int|
                    {
                        &&& 0 <= i < old(s).password_resets@.len()
                        &&& (#[trigger] old(s).password_resets@[i]).token_hash@
                            == crypto::sha256_of(token@)
                        &&& old(s).password_resets@[i].user_id@ == user_id@
                    }
                &&& exists|j: int|
                    {
                        &&& 0 <= j < final(s).users@.len()
                        &&& (#[trigger] final(s).users@[j]).id@ == user_id@
                        &&& final(s).users@[j].password_hash@ == new_password_hash@
                        &&& name@ == final(s).users@[j].name@
                    }
                &&& final(s).sessions@.len() >= 1
                &&& final(s).sessions@.last().user_id@ == user_id@
                &&& final(s).sessions@.last().token_hash@ == crypto::sha256_of(session_token@)
                &&& forall|m: int|
                    0 <= m < final(s).sessions@.len() - 1 ==> (
                    #[trigger] final(s).sessions@[m]).user_id@ != user_id@
                &&& forall|i: int|
                    0 <= i < final(s).password_resets@.len() ==> (
                    #[trigger] final(s).password_resets@[i]).token_hash@ != crypto::sha256_of(
                        token@,
                    )
            },
            Err(TxError::Abort(e)) => {
                ||| (e is ResourceNotFound && *final(s) == *old(s) && forall|i: int|
                    0 <= i < old(s).password_resets@.len() ==> (
                    #[trigger] old(s).password_resets@[i]).token_hash@ != crypto::sha256_of(
                        token@,
                    ))
                ||| (e is SecondFactorCredentialsWrong && exists|i: int|
                    {
                        &&& 0 <= i < old(s).password_resets@.len()
                        &&& (#[trigger] old(s).password_resets@[i]).token_hash@
                            == crypto::sha256_of(token@)
                        &&& exists|mid: Store|
                            #[trigger] reset_consumed(*old(s), mid, i)
                                && optional_second_factor_failed(
                                mid,
                                *final(s),
                                old(s).password_resets@[i].user_id@,
                                *credentials,
                                time,
                            )
                    })
                ||| (e is Internal && exists|i: int|
                    {
                        &&& 0 <= i < old(s).password_resets@.len()
                        &&& (#[trigger] old(s).password_resets@[i]).token_hash@
                            == crypto::sha256_of(token@)
                        &&& !user_exists(*old(s), old(s).password_resets@[i].user_id@)
                    })
                ||| (e is Internal && exists|i: int|
                    {
                        &&& 0 <= i < old(s).password_resets@.len()
                        &&& (#[trigger] old(s).password_resets@[i]).token_hash@
                            == crypto::sha256_of(token@)
                        &&& exists|mid: Store, mid2: Store|
                            #![trigger reset_consumed(*old(s), mid, i), optional_second_factor_passed(mid, mid2, old(s).password_resets@[i].user_id@, *credentials, time)]
                            {
                                &&& reset_consumed(*old(s), mid, i)
                                &&& optional_second_factor_passed(
                                    mid,
                                    mid2,
                                    old(s).password_resets@[i].user_id@,
                                    *credentials,
                                    time,
                                )
                                &&& password_change_blocked(
                                    mid2,
                                    *final(s),
                                    old(s).password_resets@[i].user_id@,
                                    new_password_hash@,
                                    candidates@,
                                )
                            }
                    })
            },
            Err(TxError::Retry) => false,
        },
{
    let ghost pre = *s;
    let token_hash = token.hash();
    if s.find_password_reset(&token_hash).is_none() {
        return Err(TxError::Abort(Error::ResourceNotFound));
    }
    let reset = match s.take_password_reset_by_token_hash(&token_hash) {
        Some(row) => row,
        None => {
            return Err(TxError::Abort(Error::Internal));
        },
    };
    let ghost gi = choose|i0: int|
        {
            &&& 0 <= i0 < pre.password_resets@.len()
            &&& (#[trigger] pre.password_resets@[i0]).token_hash@ == token_hash@
            &&& reset == pre.password_resets@[i0]
            &&& s.password_resets@ == pre.password_resets@.remove(i0)
        };
    let ghost mid_s = *s;
    proof {
        assert(reset_consumed(pre, mid_s, gi));
    }
    let user_id = reset.user_id;
    match credentials.verify(s, &user_id, time) {
        Ok(()) => {},
        Err(TxError::Abort(e)) => {
            proof {
                assert(optional_second_factor_failed(
                    mid_s,
                    *s,
                    user_id@,
                    *credentials,
                    time,
                ));
            }
            return Err(TxError::Abort(e));
        },
        Err(TxError::Retry) => {
            return Err(TxError::Abort(Error::Internal));
        },
    }
    let ghost mid2_s = *s;
    proof {
        assert(optional_second_factor_passed(mid_s, mid2_s, user_id@, *credentials, time));
    }
    let ui = match s.find_user_by_id(&user_id) {
        Some(ui) => ui,
        None => {
            // The user owning the reset request is gone.
            proof {
                assert(s.users@ == pre.users@);
            }
            return Err(TxError::Abort(Error::Internal));
        },
    };
    s.set_password_hash(ui, new_password_hash.clone());
    let name = s.users[ui].name.clone();
    // Expiring all sessions is a conventionally expected security feature
    // whenever a user's password is changed.
    s.delete_sessions_for_user(&user_id);
    let ghost mid = *s;
    match tx::create_session_with(s, &user_id, candidates) {
        Ok(session_token) => {
            proof {
                assert forall|m: int|
                    0 <= m < s.sessions@.len() - 1 implies (#[trigger] s.sessions@[m]).user_id@
                    != user_id@ by {
                    assert(s.sessions@[m] == mid.sessions@[m]);
                }
            }
            Ok((user_id, name, session_token))
        },
        Err(_) => {
            proof {
                assert(password_change_blocked(
                    mid2_s,
                    *s,
                    user_id@,
                    new_password_hash@,
                    candidates@,
                ));
            }
            Err(TxError::Abort(Error::Internal))
        },
    }
}

/// Records the current digests of the terms of service and privacy notice,
/// creating the record or refreshing whichever digest changed.
pub fn sync_terms_version_tx(s: &mut Store, terms_hash: Vec<u8>, privacy_hash: Vec<u8>) -> (r:
    TxResult<(), Error>)
    requires
        old(s).wf(),
    ensures
        final(s).wf(),
        final(s).users@ == old(s).users@,
        final(s).sessions@ == old(s).sessions@,
        final(s).totp@ == old(s).totp@,
        final(s).unverified_users@ == old(s).unverified_users@,
        final(s).password_resets@ == old(s).password_resets@,
        final(s).email_change_requests@ == old(s).email_change_requests@,
        r is Ok,
        final(s).terms matches Some(t) && t.terms_hash@ == terms_hash@ && t.privacy_hash@
            == privacy_hash@,
{
    match &s.terms {
        None => {
            s.terms = Some(crate::store::TermsRow { terms_hash, privacy_hash });
            Ok(())
        },
        Some(_) => {
            // Refresh only what changed; the stored value ends up equal to
            // the current digests either way.
            s.terms = Some(crate::store::TermsRow { terms_hash, privacy_hash });
            Ok(())
        },
    }
}
/// Begins an email change for the user owning this session: checks the
/// first factor; if the new email is taken the decision is to notify its
/// owner; otherwise any previous request of the user is expired and a fresh
/// one stored under the hash of the given token. A token-hash collision
/// asks for a rerun with a fresh token.
pub fn email_change_request_tx(
    s: &mut Store,
    token_hash: &Vec<u8>,
    credentials: &FirstFactorCredentials,
    new_email: &str,
    token: &Token,
) -> (r: TxResult<SendDecision, Error>)
    requires
        old(s).wf(),
        credentials is First,
    ensures
        final(s).wf(),
        final(s).users@ == old(s).users@,
        final(s).sessions@ == old(s).sessions@,
        final(s).totp@ == old(s).totp@,
        final(s).unverified_users@ == old(s).unverified_users@,
        final(s).password_resets@ == old(s).password_resets@,
        final(s).terms == old(s).terms,
        ({
            let password = credentials->First_0->password;
            match r {
                Ok(SendDecision::EmailTaken(name)) => {
                    &&& final(s).email_change_requests@ == old(s).email_change_requests@
                    &&& session_password_ok(*old(s), token_hash@, password@)
                    &&& exists|j: int|
                        0 <= j < old(s).users@.len() && (#[trigger] old(s).users@[j]).email@
                            == new_email@ && name@ == old(s).users@[j].name@
                },
                Ok(SendDecision::Verification) => {
                    &&& session_password_ok(*old(s), token_hash@, password@)
                    &&& !email_known(*old(s), new_email@)
                    &&& final(s).email_change_requests@.len() >= 1
                    &&& final(s).email_change_requests@.last().token_hash@ == crypto::sha256_of(
                        token@,
                    )
                    &&& final(s).email_change_requests@.last().email@ == new_email@
                    &&& exists|j: int|
                        0 <= j < old(s).users@.len() && session_user(
                            *old(s),
                            token_hash@,
                            (#[trigger] old(s).users@[j]).id@,
                        ) && final(s).email_change_requests@.last().user_id@ == old(s).users@[j].id@
                },
                Err(TxError::Abort(e)) => {
                    ||| (e is AuthFailed && final(s).email_change_requests@ == old(
                        s,
                    ).email_change_requests@ && session_unauthenticated(*old(s), token_hash@))
                    ||| (e is FirstFactorCredentialsWrong && final(s).email_change_requests@
                        == old(s).email_change_requests@ && session_password_wrong(
                        *old(s),
                        token_hash@,
                        password@,
                    ))
                    ||| (e is Internal && final(s).email_change_requests@ == old(
                        s,
                    ).email_change_requests@ && exists|i: int|
                        0 <= i < old(s).sessions@.len() && (
                        #[trigger] old(s).sessions@[i]).token_hash@ == token_hash@
                            && !user_exists(*old(s), old(s).sessions@[i].user_id@))
                },
                Err(TxError::Retry) => {
                    &&& session_password_ok(*old(s), token_hash@, password@)
                    &&& !email_known(*old(s), new_email@)
                    &&& exists|j: int|
                        {
                            &&& 0 <= j < old(s).users@.len()
                            &&& session_user(
                                *old(s),
                                token_hash@,
                                (#[trigger] old(s).users@[j]).id@,
                            )
                            &&& exists|i: int|
                                0 <= i < old(s).email_change_requests@.len() && (#[trigger] old(
                                    s,
                                ).email_change_requests@[i]).token_hash@ == crypto::sha256_of(
                                    token@,
                                ) && old(s).email_change_requests@[i].user_id@ != old(
                                    s,
                                ).users@[j].id@
                            &&& forall|m: int|
                                0 <= m < final(s).email_change_requests@.len() ==> (
                                #[trigger] final(s).email_change_requests@[m]).user_id@ != old(
                                    s,
                                ).users@[j].id@ && old(s).email_change_requests@.contains(
                                    final(s).email_change_requests@[m],
                                )
                        }
                },
            }
        }),
{
    let j = match s.find_user_by_session(token_hash) {
        Some(j) => j,
        None => {
            return Err(TxError::Abort(Error::AuthFailed));
        },
    };
    let ghost pre = *s;
    let ghost uj: int = j as int;
    let user_id = crypto::clone_bytes(&s.users[j].id);
    proof {
        assert(session_user(*s, token_hash@, user_id@));
    }
    match credentials.verify(s, &user_id) {
        Ok(()) => {},
        Err(TxError::Abort(e)) => {
            return Err(TxError::Abort(e));
        },
        Err(TxError::Retry) => {
            return Err(TxError::Abort(Error::Internal));
        },
    }
    match s.find_user_by_email(new_email) {
        Some(t) => {
            // The new email is taken. The outward response must not say so.
            return Ok(SendDecision::EmailTaken(s.users[t].name.clone()));
        },
        None => {},
    }
    // Expire any previous email change request from the same user.
    s.delete_email_change_for_user(&user_id);
    let ghost mid = *s;
    let th = token.hash();
    match s.find_email_change(&th) {
        Some(c) => {
            // The fresh token's hash collided with another user's live
            // request: rerun the whole unit of work with a new token.
            proof {
                assert(session_user(pre, token_hash@, pre.users@[uj].id@));
                assert(mid.email_change_requests@[c as int].user_id@ != user_id@);
                assert(pre.email_change_requests@.contains(
                    mid.email_change_requests@[c as int],
                ));
                let w = choose|w: int|
                    0 <= w < pre.email_change_requests@.len() && pre.email_change_requests@[w]
                        == mid.email_change_requests@[c as int];
                assert((#[trigger] pre.email_change_requests@[w]).token_hash@
                    == crypto::sha256_of(token@) && pre.email_change_requests@[w].user_id@
                    != pre.users@[uj].id@);
            }
            return Err(TxError::Retry);
        },
        None => {},
    }
    let row = crate::store::EmailChangeRow {
        token_hash: th,
        user_id,
        email: String::from_str(new_email),
    };
    s.insert_email_change(row);
    Ok(SendDecision::Verification)
}

/// Checks an existing email change request by its token, returning the
/// user's current email and the requested one.
pub fn check_email_change_tx(s: &Store, token: &Token) -> (r: TxResult<(String, String), Error>)
    requires
        s.wf(),
    ensures
        match r {
            Ok((current_email, requested_email)) => exists|i: int, j: int|
                {
                    &&& 0 <= i < s.email_change_requests@.len()
                    &&& 0 <= j < s.users@.len()
                    &&& (#[trigger] s.email_change_requests@[i]).token_hash@ == crypto::sha256_of(
                        token@,
                    )
                    &&& (#[trigger] s.users@[j]).id@ == s.email_change_requests@[i].user_id@
                    &&& current_email@ == s.users@[j].email@
                    &&& requested_email@ == s.email_change_requests@[i].email@
                },
            Err(TxError::Abort(e)) => e is ResourceNotFound && forall|i: int, j: int|
                0 <= i < s.email_change_requests@.len() && 0 <= j < s.users@.len() && (
                #[trigger] s.email_change_requests@[i]).token_hash@ == crypto::sha256_of(token@)
                    ==> (#[trigger] s.users@[j]).id@ != s.email_change_requests@[i].user_id@,
            Err(TxError::Retry) => false,
        },
{
    let token_hash = token.hash();
    let i = match s.find_email_change(&token_hash) {
        Some(i) => i,
        None => {
            return Err(TxError::Abort(Error::ResourceNotFound));
        },
    };
    match s.find_user_by_id(&s.email_change_requests[i].user_id) {
        Some(j) => Ok((s.users[j].email.clone(), s.email_change_requests[i].email.clone())),
        None => {
            proof {
                assert forall|i2: int, j2: int|
                    0 <= i2 < s.email_change_requests@.len() && 0 <= j2 < s.users@.len() && (
                    #[trigger] s.email_change_requests@[i2]).token_hash@ == crypto::sha256_of(
                        token@,
                    ) implies (#[trigger] s.users@[j2]).id@ != s.email_change_requests@[i2].user_id@ by {
                    if i2 != i as int {
                        assert(s.email_change_requests@[i2].token_hash@
                            != s.email_change_requests@[i as int].token_hash@);
                    }
                }
            }
            Err(TxError::Abort(Error::ResourceNotFound))
        },
    }
}

/// Performs the email change from an email change request: consumes the
/// request found by its token, expires email verification requests and
/// other change requests aimed at the same address, and rewrites the user's
/// email. The rewrite is refused only when a different user already holds
/// the address.
pub fn perform_email_change_tx(s: &mut Store, token: &Token) -> (r: TxResult<(), Error>)
    requires
        old(s).wf(),
    ensures
        final(s).wf(),
        final(s).sessions@ == old(s).sessions@,
        final(s).totp@ == old(s).totp@,
        final(s).password_resets@ == old(s).password_resets@,
        final(s).terms == old(s).terms,
        match r {
            Ok(()) => exists|i: int|
                {
                    &&& 0 <= i < old(s).email_change_requests@.len()
                    &&& (#[trigger] old(s).email_change_requests@[i]).token_hash@
                        == crypto::sha256_of(token@)
                    &&& {
                        let uid = old(s).email_change_requests@[i].user_id@;
                        let email = old(s).email_change_requests@[i].email@;
                        &&& forall|j: int|
                            0 <= j < old(s).users@.len() && (#[trigger] old(s).users@[j]).email@
                                == email ==> old(s).users@[j].id@ == uid
                        &&& forall|m: int|
                            0 <= m < final(s).email_change_requests@.len() ==> (#[trigger] final(s).email_change_requests@[m]).token_hash@ != crypto::sha256_of(token@)
                                && final(s).email_change_requests@[m].email@ != email
                        &&& forall|m: int|
                            0 <= m < final(s).unverified_users@.len() ==> (#[trigger] final(s).unverified_users@[m]).email@ != email
                        &&& final(s).users@.len() == old(s).users@.len()
                        &&& forall|j: int|
                            0 <= j < final(s).users@.len() ==> {
                                &&& (#[trigger] final(s).users@[j]).id@ == old(s).users@[j].id@
                                &&& final(s).users@[j].name@ == old(s).users@[j].name@
                                &&& final(s).users@[j].password_hash@ == old(s).users@[j].password_hash@
                                &&& final(s).users@[j].email@ == if old(s).users@[j].id@ == uid {
                                    email
                                } else {
                                    old(s).users@[j].email@
                                }
                            }
                    }
                },
            Err(TxError::Abort(e)) => {
                ||| (e is ResourceNotFound && *final(s) == *old(s) && forall|i: int|
                    0 <= i < old(s).email_change_requests@.len() ==> (
                    #[trigger] old(s).email_change_requests@[i]).token_hash@
                        != crypto::sha256_of(token@))
                ||| (e is Internal && exists|i: int|
                    {
                        &&& 0 <= i < old(s).email_change_requests@.len()
                        &&& (#[trigger] old(s).email_change_requests@[i]).token_hash@
                            == crypto::sha256_of(token@)
                        &&& {
                            let uid = old(s).email_change_requests@[i].user_id@;
                            let email = old(s).email_change_requests@[i].email@;
                            &&& exists|j: int|
                                0 <= j < old(s).users@.len() && (#[trigger] old(s).users@[j]).email@ == email && old(s).users@[j].id@ != uid
                            &&& final(s).users@ == old(s).users@
                            &&& forall|m: int|
                                0 <= m < final(s).email_change_requests@.len() ==> (
                                #[trigger] final(s).email_change_requests@[m]).token_hash@
                                    != crypto::sha256_of(token@) && final(s).email_change_requests@[m].email@ != email
                            &&& forall|m: int|
                                0 <= m < final(s).unverified_users@.len() ==> (#[trigger] final(s).unverified_users@[m]).email@ != email
                        }
                    })
            },
            Err(TxError::Retry) => false,
        },
{
    let ghost pre = *s;
    let token_hash = token.hash();
    if s.find_email_change(&token_hash).is_none() {
        return Err(TxError::Abort(Error::ResourceNotFound));
    }
    let request = match s.take_email_change_by_token_hash(&token_hash) {
        Some(row) => row,
        None => {
            return Err(TxError::Abort(Error::Internal));
        },
    };
    let ghost gi = choose|i0: int|
        {
            &&& 0 <= i0 < pre.email_change_requests@.len()
            &&& (#[trigger] pre.email_change_requests@[i0]).token_hash@ == token_hash@
            &&& request == pre.email_change_requests@[i0]
            &&& s.email_change_requests@ == pre.email_change_requests@.remove(i0)
        };
    // Expire any email verification request for the address being taken.
    let expired = s.take_unverified_by_email(request.email.as_str());
    // Expire any other change request aimed at the same address.
    s.delete_email_changes_by_email(request.email.as_str());
    match s.find_user_by_email(request.email.as_str()) {
        Some(j) => {
            if !crypto::bytes_eq(&s.users[j].id, &request.user_id) {
                // A different user holds the address; the store's unique
                // constraint would refuse the rewrite.
                proof {
                    assert(pre.email_change_requests@[gi].token_hash@ == token_hash@);
                    assert(s.users@ == pre.users@);
                    assert(pre.users@[j as int].email@ == request.email@);
                    assert(pre.users@[j as int].id@ != request.user_id@);
                }
                return Err(TxError::Abort(Error::Internal));
            }
        },
        None => {},
    }
    proof {
        assert forall|j: int|
            0 <= j < pre.users@.len() && (#[trigger] pre.users@[j]).email@ == request.email@
            implies pre.users@[j].id@ == request.user_id@ by {
            assert(s.users@[j] == pre.users@[j]);
        }
    }
    match s.find_user_by_id(&request.user_id) {
        Some(ui) => {
            proof {
                assert forall|j: int|
                    0 <= j < s.users@.len() && j != ui implies (#[trigger] s.users@[j]).email@
                    != request.email@ by {
                    if s.users@[j].email@ == request.email@ {
                        assert(s.users@[j].id@ == request.user_id@);
                        assert(s.users@[j].id@ == s.users@[ui as int].id@);
                    }
                }
            }
            s.set_email(ui, request.email);
            Ok(())
        },
        None => {
            // The user is gone: there is no email to rewrite, and the
            // consumed request stays consumed.
            Ok(())
        },
    }
}

/// Gets the public profile (ID and display name) of the user with an ID.
pub fn user_profile_tx(s: &Store, user_id: &Vec<u8>) -> (r: TxResult<(Vec<u8>, String), Error>)
    requires
        s.wf(),
    ensures
        match r {
            Ok((id, name)) => exists|j: int|
                {
                    &&& 0 <= j < s.users@.len()
                    &&& (#[trigger] s.users@[j]).id@ == user_id@
                    &&& id@ == s.users@[j].id@
                    &&& name@ == s.users@[j].name@
                },
            Err(TxError::Abort(e)) => e is ResourceNotFound && forall|j: int|
                0 <= j < s.users@.len() ==> (#[trigger] s.users@[j]).id@ != user_id@,
            Err(TxError::Retry) => false,
        },
{
    match s.find_user_by_id(user_id) {
        Some(j) => Ok((crypto::clone_bytes(&s.users[j].id), s.users[j].name.clone())),
        None => Err(TxError::Abort(Error::ResourceNotFound)),
    }
}


/// The length of a new backup authentication code.
pub const BACKUP_CODE_LENGTH: usize = 8;

/// The number of backup authentication codes generated for a user.
pub const BACKUP_CODE_COUNT: usize = 10;

/// Completes a second-factor enrollment and hands the user their freshly
/// generated single-use backup codes: short random codes from an alphabet
/// without easily confused characters, stored with the verified secret.
pub fn totp_confirm_enrollment(
    s: &mut Store,
    token_hash: &Vec<u8>,
    password: &UserPassword,
    secret: &crate::validation::TotpSecret,
    otp: &crate::validation::Otp,
    time: u64,
) -> (r: TxResult<Vec<String>, Error>)
    requires
        old(s).wf(),
    ensures
        final(s).wf(),
        match r {
            Ok(codes) => {
                &&& codes@.len() == BACKUP_CODE_COUNT
                &&& forall|k: int|
                    0 <= k < codes@.len() ==> (#[trigger] codes@[k])@.len() == BACKUP_CODE_LENGTH
                        && crypto::short_code_chars(codes@[k]@)
                &&& session_password_ok(*old(s), token_hash@, password@)
                &&& crate::crypto::totp_accepted(secret@, otp@, time)
                &&& final(s).users@ == old(s).users@
                &&& final(s).sessions@ == old(s).sessions@
                &&& final(s).totp@.len() == old(s).totp@.len() + 1
                &&& final(s).totp@ == old(s).totp@.push(final(s).totp@.last())
                &&& final(s).totp@.last().secret matches Some(sec) && sec@ == secret@
                &&& final(s).totp@.last().otp_used_last matches Some(last) && last@ == otp@
                &&& final(s).totp@.last().unused_backup_codes@ == codes@
            },
            Err(TxError::Abort(e)) => {
                &&& *final(s) == *old(s)
                &&& {
                    ||| (e is AuthFailed && session_unauthenticated(*old(s), token_hash@))
                    ||| (e is UserCredentialsWrong && session_password_wrong(
                        *old(s),
                        token_hash@,
                        password@,
                    ))
                    ||| (e is OtpWrong && session_password_ok(*old(s), token_hash@, password@)
                        && !crate::crypto::totp_accepted(secret@, otp@, time))
                    ||| (e is AlreadyExists && session_password_ok(*old(s), token_hash@, password@)
                        && crate::crypto::totp_accepted(secret@, otp@, time))
                }
            },
            Err(TxError::Retry) => false,
        },
{
    let mut codes: Vec<String> = Vec::new();
    let mut stored: Vec<String> = Vec::new();
    let mut i: usize = 0;
    while i < BACKUP_CODE_COUNT
        invariant
            0 <= i <= BACKUP_CODE_COUNT,
            codes@.len() == i,
            stored@.len() == i,
            forall|k: int|
                0 <= k < i ==> (#[trigger] codes@[k])@.len() == BACKUP_CODE_LENGTH
                    && crypto::short_code_chars(codes@[k]@),
            forall|k: int| 0 <= k < i ==> #[trigger] stored@[k] == codes@[k],
        decreases BACKUP_CODE_COUNT - i,
    {
        let code = crypto::generate_short_code(BACKUP_CODE_LENGTH);
        stored.push(code.clone());
        codes.push(code);
        i = i + 1;
    }
    proof {
        assert(stored@ =~= codes@);
    }
    match enable_totp_tx(s, token_hash, password, secret, otp, time, stored) {
        Ok(()) => Ok(codes),
        Err(e) => Err(e),
    }
}

} // verus!
