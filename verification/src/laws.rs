//! The engine's security properties, stated and proved over the
//! specifications of the verified operations: uniqueness of stored session
//! keys under collision retries, the one-time-code anti-replay window,
//! single-use backup codes, multi-factor composition, and uniform errors
//! against user enumeration.

use vstd::prelude::*;

use crate::credentials::{
    multi_factor_outcome, second_factor_code_right, second_factor_enabled, second_factor_outcome,
    second_factor_replayed, second_factor_used_backup_code, second_factor_window_shifted,
    ExclusiveSecondFactorCredentials,
};
use crate::crypto;
use crate::errors::{Error, TxError, TxResult};
use crate::flows::{email_known, sign_in_outcome};
use crate::store::{backup_codes_contain, otp_is_replay, Store};
use crate::token::Token;
use crate::tx::session_created;

verus! {

/// Sessions created one after the other are stored under distinct keys:
/// each creation's key was free beforehand, so however the colliding
/// candidates were rerolled, the stored hashes all differ and the row count
/// grows by exactly one per creation.
pub proof fn lemma_created_sessions_distinct(
    s0: Store,
    s1: Store,
    s2: Store,
    user_a: Seq<u8>,
    user_b: Seq<u8>,
    token_a: Seq<u8>,
    token_b: Seq<u8>,
)
    requires
        session_created(s0, s1, user_a, token_a),
        session_created(s1, s2, user_b, token_b),
    ensures
        crypto::sha256_of(token_a) != crypto::sha256_of(token_b),
        s2.sessions@.len() == s0.sessions@.len() + 2,
{
    let ha = crypto::sha256_of(token_a);
    let hb = crypto::sha256_of(token_b);
    assert(s1.sessions@.last().token_hash@ == ha);
    assert(s1.sessions@[s1.sessions@.len() - 1].token_hash@ == ha);
}

/// A stored session key survives any later chain of session creations:
/// each creation only appends a row.
proof fn lemma_session_hash_stays(
    stores: Seq<Store>,
    users: Seq<Seq<u8>>,
    tokens: Seq<Seq<u8>>,
    from: int,
    to: int,
    h: Seq<u8>,
)
    requires
        stores.len() == tokens.len() + 1,
        users.len() == tokens.len(),
        forall|k: int|
            0 <= k < tokens.len() ==> session_created(
                #[trigger] stores[k],
                stores[k + 1],
                users[k],
                tokens[k],
            ),
        0 <= from <= to <= tokens.len(),
        !crate::tx::session_hash_free(stores[from], h),
    ensures
        !crate::tx::session_hash_free(stores[to], h),
    decreases to - from,
{
    if from < to {
        let pre = stores[from];
        let post = stores[from + 1];
        assert(session_created(pre, post, users[from], tokens[from]));
        let i = choose|i: int|
            0 <= i < pre.sessions@.len() && (#[trigger] pre.sessions@[i]).token_hash@ == h;
        assert(post.sessions@[i] == pre.sessions@[i]);
        assert(!crate::tx::session_hash_free(post, h));
        lemma_session_hash_stays(stores, users, tokens, from + 1, to, h);
    }
}

/// However many sessions are created in a row — with every collision
/// resolved by rerolling — the stored keys end up pairwise distinct and the
/// row count grows by exactly the number of creations.
pub proof fn lemma_session_chain_unique(
    stores: Seq<Store>,
    users: Seq<Seq<u8>>,
    tokens: Seq<Seq<u8>>,
)
    requires
        stores.len() == tokens.len() + 1,
        users.len() == tokens.len(),
        forall|k: int|
            0 <= k < tokens.len() ==> session_created(
                #[trigger] stores[k],
                stores[k + 1],
                users[k],
                tokens[k],
            ),
    ensures
        stores.last().sessions@.len() == stores[0].sessions@.len() + tokens.len(),
        forall|a: int, b: int|
            0 <= a < b < tokens.len() ==> crypto::sha256_of(#[trigger] tokens[a])
                != crypto::sha256_of(#[trigger] tokens[b]),
    decreases tokens.len(),
{
    let n = tokens.len() as int;
    if n > 0 {
        let stores0 = stores.drop_last();
        let users0 = users.drop_last();
        let tokens0 = tokens.drop_last();
        assert forall|k: int|
            0 <= k < tokens0.len() implies session_created(
            #[trigger] stores0[k],
            stores0[k + 1],
            users0[k],
            tokens0[k],
        ) by {
            assert(session_created(stores[k], stores[k + 1], users[k], tokens[k]));
        }
        lemma_session_chain_unique(stores0, users0, tokens0);
        assert(stores0.last() == stores[n - 1]);
        assert(session_created(stores[n - 1], stores[n], users[n - 1], tokens[n - 1]));
        assert(stores.last() == stores[n]);
        assert forall|a: int, b: int|
            0 <= a < b < n implies crypto::sha256_of(#[trigger] tokens[a]) != crypto::sha256_of(
            #[trigger] tokens[b],
        ) by {
            if b < n - 1 {
                assert(crypto::sha256_of(tokens0[a]) != crypto::sha256_of(tokens0[b]));
            } else {
                let h = crypto::sha256_of(tokens[a]);
                assert(session_created(stores[a], stores[a + 1], users[a], tokens[a]));
                assert(stores[a + 1].sessions@.last().token_hash@ == h);
                assert(!crate::tx::session_hash_free(stores[a + 1], h)) by {
                    assert(stores[a + 1].sessions@[stores[a + 1].sessions@.len() - 1].token_hash@
                        == h);
                }
                lemma_session_hash_stays(stores, users, tokens, a + 1, n - 1, h);
                assert(crate::tx::session_hash_free(stores[n - 1], crypto::sha256_of(
                    tokens[n - 1],
                )));
            }
        }
    }
}

/// A one-time code accepted through the rolling-code path can never be
/// accepted again: the acceptance recorded it as last used, so an immediate
/// resubmission hits the anti-replay guard, whatever the submission time.
/// The code is assumed not to double as one of the user's backup codes.
pub proof fn lemma_totp_no_replay(
    pre: Store,
    mid: Store,
    post: Store,
    user_id: Seq<u8>,
    otp: Seq<char>,
    time1: u64,
    time2: u64,
    r2: TxResult<(), Error>,
)
    requires
        pre.wf(),
        forall|j: int|
            0 <= j < pre.totp@.len() && (#[trigger] pre.totp@[j]).user_id@ == user_id
                ==> !backup_codes_contain(pre.totp@[j], otp),
        second_factor_outcome(pre, mid, user_id, otp, time1, Ok(())),
        second_factor_outcome(mid, post, user_id, otp, time2, r2),
    ensures
        r2 == TxResult::<(), Error>::Err(TxError::<Error>::Abort(
            Error::SecondFactorCredentialsWrong,
        )),
{
    // The code is among no backup codes, so the first acceptance went
    // through the rolling path: the window shifted and recorded the code as
    // last used.
    assert(!crate::credentials::second_factor_has_backup_code(pre, user_id, otp));
    assert(second_factor_enabled(pre, user_id));
    assert(!second_factor_replayed(pre, user_id, otp));
    assert(second_factor_window_shifted(pre, mid, user_id, otp));
    let i = choose|i: int|
        {
            &&& 0 <= i < pre.totp@.len()
            &&& (#[trigger] pre.totp@[i]).user_id@ == user_id
            &&& mid.totp@ == pre.totp@.update(i, mid.totp@[i])
            &&& crate::store::otp_window_shifted(pre.totp@[i], mid.totp@[i], otp)
        };
    // The backup codes were untouched and never held this code, so the
    // resubmission cannot use them.
    assert(!backup_codes_contain(pre.totp@[i], otp));
    assert(mid.totp@[i].unused_backup_codes@ == pre.totp@[i].unused_backup_codes@);
    assert(!backup_codes_contain(mid.totp@[i], otp));
    assert forall|j: int|
        0 <= j < mid.totp@.len() && (#[trigger] mid.totp@[j]).user_id@ == user_id implies j
        == i by {
        if j != i {
            assert(mid.totp@[j] == pre.totp@[j]);
            assert(pre.totp@[j].user_id@ != pre.totp@[i].user_id@);
        }
    }
    assert(!second_factor_used_backup_code(mid, post, user_id, otp)) by {
        if second_factor_used_backup_code(mid, post, user_id, otp) {
            let j = choose|j: int|
                {
                    &&& 0 <= j < mid.totp@.len()
                    &&& (#[trigger] mid.totp@[j]).user_id@ == user_id
                    &&& backup_codes_contain(mid.totp@[j], otp)
                    &&& post.totp@ == mid.totp@.update(j, post.totp@[j])
                    &&& crate::store::backup_code_removed(mid.totp@[j], post.totp@[j], otp)
                };
            assert(j == i);
        }
    }
    // The resubmitted code now equals the recorded last-used marker.
    assert(otp_is_replay(mid.totp@[i], otp));
    assert(second_factor_replayed(mid, user_id, otp));
    assert(second_factor_enabled(mid, user_id));
}

/// A code equal to the recorded second-to-last-used marker is rejected,
/// as long as it is not also among the unused backup codes.
pub proof fn lemma_second_to_last_rejected(
    pre: Store,
    post: Store,
    user_id: Seq<u8>,
    otp: Seq<char>,
    time: u64,
    r: TxResult<(), Error>,
    i: int,
)
    requires
        pre.wf(),
        0 <= i < pre.totp@.len(),
        pre.totp@[i].user_id@ == user_id,
        pre.totp@[i].otp_used_2nd_to_last matches Some(m) && m@ == otp,
        !backup_codes_contain(pre.totp@[i], otp),
        second_factor_outcome(pre, post, user_id, otp, time, r),
    ensures
        r == TxResult::<(), Error>::Err(TxError::<Error>::Abort(
            Error::SecondFactorCredentialsWrong,
        )),
{
    assert(second_factor_enabled(pre, user_id));
    assert(otp_is_replay(pre.totp@[i], otp));
    assert(second_factor_replayed(pre, user_id, otp));
    assert(!second_factor_used_backup_code(pre, post, user_id, otp)) by {
        if second_factor_used_backup_code(pre, post, user_id, otp) {
            let j = choose|j: int|
                {
                    &&& 0 <= j < pre.totp@.len()
                    &&& (#[trigger] pre.totp@[j]).user_id@ == user_id
                    &&& backup_codes_contain(pre.totp@[j], otp)
                    &&& post.totp@ == pre.totp@.update(j, post.totp@[j])
                    &&& crate::store::backup_code_removed(pre.totp@[j], post.totp@[j], otp)
                };
            if j != i {
                assert(pre.totp@[j].user_id@ != pre.totp@[i].user_id@);
            }
        }
    }
}

/// A backup code verifies successfully at most once, ever: consuming it
/// removes it from the unused set, so a second submission can only go to
/// the rolling-code path, which rejects it unless it happens to also be the
/// current cryptographic code.
pub proof fn lemma_backup_code_single_use(
    pre: Store,
    mid: Store,
    post: Store,
    user_id: Seq<u8>,
    otp: Seq<char>,
    time1: u64,
    time2: u64,
    r2: TxResult<(), Error>,
)
    requires
        pre.wf(),
        second_factor_used_backup_code(pre, mid, user_id, otp),
        second_factor_outcome(mid, post, user_id, otp, time2, r2),
        !second_factor_code_right(mid, user_id, otp, time2),
    ensures
        r2 == TxResult::<(), Error>::Err(TxError::<Error>::Abort(
            Error::SecondFactorCredentialsWrong,
        )),
        forall|j: int|
            0 <= j < mid.totp@.len() && (#[trigger] mid.totp@[j]).user_id@ == user_id
                ==> !backup_codes_contain(mid.totp@[j], otp),
{
    let i = choose|i: int|
        {
            &&& 0 <= i < pre.totp@.len()
            &&& (#[trigger] pre.totp@[i]).user_id@ == user_id
            &&& backup_codes_contain(pre.totp@[i], otp)
            &&& mid.totp@ == pre.totp@.update(i, mid.totp@[i])
            &&& crate::store::backup_code_removed(pre.totp@[i], mid.totp@[i], otp)
        };
    assert forall|j: int|
        0 <= j < mid.totp@.len() && (#[trigger] mid.totp@[j]).user_id@ == user_id
            implies !backup_codes_contain(mid.totp@[j], otp) by {
        if j != i {
            assert(mid.totp@[j] == pre.totp@[j]);
            assert(pre.totp@[j].user_id@ != pre.totp@[i].user_id@);
        } else {
            if backup_codes_contain(mid.totp@[i], otp) {
                let c = choose|c: int|
                    0 <= c < mid.totp@[i].unused_backup_codes@.len() && (
                    #[trigger] mid.totp@[i].unused_backup_codes@[c])@ == otp;
                assert((mid.totp@[i].unused_backup_codes@[c])@ != otp);
            }
        }
    }
    assert(!second_factor_used_backup_code(mid, post, user_id, otp)) by {
        if second_factor_used_backup_code(mid, post, user_id, otp) {
            let j = choose|j: int|
                {
                    &&& 0 <= j < mid.totp@.len()
                    &&& (#[trigger] mid.totp@[j]).user_id@ == user_id
                    &&& backup_codes_contain(mid.totp@[j], otp)
                    &&& post.totp@ == mid.totp@.update(j, post.totp@[j])
                    &&& crate::store::backup_code_removed(mid.totp@[j], post.totp@[j], otp)
                };
        }
    }
    assert(second_factor_enabled(mid, user_id)) by {
        assert(mid.totp@[i].user_id@ == user_id);
    }
}

/// A user with no second factor enabled is authenticated by the first
/// factor alone: with the right password and no second-factor input,
/// multi-factor verification succeeds.
pub proof fn lemma_first_factor_alone(
    pre: Store,
    post: Store,
    user_id: Seq<u8>,
    password: Seq<char>,
    time: u64,
    r: TxResult<(), Error>,
)
    requires
        crate::credentials::user_exists(pre, user_id),
        crate::credentials::password_accepted(pre, user_id, password),
        !second_factor_enabled(pre, user_id),
        multi_factor_outcome(pre, post, user_id, password, None, time, r),
    ensures
        r == TxResult::<(), Error>::Ok(()),
        post == pre,
{
}

/// A user with a second factor enabled is rejected when only the first
/// factor is supplied, even with the right password.
pub proof fn lemma_second_factor_required(
    pre: Store,
    post: Store,
    user_id: Seq<u8>,
    password: Seq<char>,
    time: u64,
    r: TxResult<(), Error>,
)
    requires
        crate::credentials::user_exists(pre, user_id),
        crate::credentials::password_accepted(pre, user_id, password),
        second_factor_enabled(pre, user_id),
        multi_factor_outcome(pre, post, user_id, password, None, time, r),
    ensures
        r == TxResult::<(), Error>::Err(TxError::<Error>::Abort(
            Error::SecondFactorCredentialsWrong,
        )),
{
}

/// A wrong password is rejected before the second factor is even
/// considered, whatever second-factor input came along.
pub proof fn lemma_wrong_password_rejected(
    pre: Store,
    post: Store,
    user_id: Seq<u8>,
    password: Seq<char>,
    second: Option<ExclusiveSecondFactorCredentials>,
    time: u64,
    r: TxResult<(), Error>,
)
    requires
        crate::credentials::user_exists(pre, user_id),
        !crate::credentials::password_accepted(pre, user_id, password),
        multi_factor_outcome(pre, post, user_id, password, second, time, r),
    ensures
        r == TxResult::<(), Error>::Err(TxError::<Error>::Abort(
            Error::FirstFactorCredentialsWrong,
        )),
        post == pre,
{
}

/// Enumeration resistance: signing in with an unknown email and signing in
/// with a known email but a wrong password surface the same error, and
/// neither changes the store.
pub proof fn lemma_enumeration_resistance(
    pre1: Store,
    post1: Store,
    email1: Seq<char>,
    pre2: Store,
    post2: Store,
    email2: Seq<char>,
    password1: Seq<char>,
    password2: Seq<char>,
    time1: u64,
    time2: u64,
    candidates1: Seq<Token>,
    candidates2: Seq<Token>,
    r1: TxResult<(Token, Vec<u8>, String), Error>,
    r2: TxResult<(Token, Vec<u8>, String), Error>,
)
    requires
        pre1.wf(),
        pre2.wf(),
        // The first attempt uses an email no user has.
        !email_known(pre1, email1),
        sign_in_outcome(pre1, post1, email1, password1, None, time1, candidates1, r1),
        // The second attempt uses a known email with a wrong password.
        email_known(pre2, email2),
        forall|j: int|
            0 <= j < pre2.users@.len() && (#[trigger] pre2.users@[j]).email@ == email2
                ==> !crate::crypto::argon2_verifies(password2, pre2.users@[j].password_hash@),
        sign_in_outcome(pre2, post2, email2, password2, None, time2, candidates2, r2),
    ensures
        r1 == TxResult::<(Token, Vec<u8>, String), Error>::Err(TxError::<Error>::Abort(
            Error::FirstFactorCredentialsWrong,
        )),
        r2 == r1,
        post1 == pre1,
        post2 == pre2,
{
    let i = choose|i: int|
        {
            &&& 0 <= i < pre2.users@.len()
            &&& (#[trigger] pre2.users@[i]).email@ == email2
            &&& crate::flows::sign_in_steps(
                pre2,
                post2,
                pre2.users@[i].id@,
                pre2.users@[i].name@,
                password2,
                None,
                time2,
                candidates2,
                r2,
            )
        };
    let uid = pre2.users@[i].id@;
    assert(crate::credentials::user_exists(pre2, uid));
    assert(!crate::credentials::password_accepted(pre2, uid, password2)) by {
        if crate::credentials::password_accepted(pre2, uid, password2) {
            let j = choose|j: int|
                0 <= j < pre2.users@.len() && (#[trigger] pre2.users@[j]).id@ == uid
                    && crate::crypto::argon2_verifies(password2, pre2.users@[j].password_hash@);
            if j != i {
                assert(pre2.users@[j].id@ != pre2.users@[i].id@);
            } else {
                assert(pre2.users@[j].email@ == email2);
            }
        }
    }
    match r2 {
        Ok((token, out_id, out_name)) => {
            let mid = choose|mid: Store|
                {
                    &&& #[trigger] multi_factor_outcome(
                        pre2,
                        mid,
                        uid,
                        password2,
                        None,
                        time2,
                        Ok(()),
                    )
                    &&& session_created(mid, post2, uid, token@)
                    &&& exists|j: int| 0 <= j < candidates2.len() && candidates2[j] == token
                };
            assert(false);
        },
        Err(TxError::Abort(e)) => {
            if multi_factor_outcome(pre2, post2, uid, password2, None, time2, Err(
                TxError::Abort(e),
            )) {
            } else {
                let mid = choose|mid: Store|
                    {
                        &&& #[trigger] multi_factor_outcome(
                            pre2,
                            mid,
                            uid,
                            password2,
                            None,
                            time2,
                            Ok(()),
                        )
                        &&& post2 == mid
                    };
                assert(false);
            }
        },
        Err(TxError::Retry) => {
            assert(false);
        },
    }
}

} // verus!
