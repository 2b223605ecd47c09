//! The transactional retry coordinator and the narrower collision-retry for
//! randomly generated identifiers.
//!
//! A unit of work runs on a copy of the store, which models a transaction at
//! serializable isolation: committing adopts the copy, rolling back discards
//! it, and a work function never observes a retry — only the final
//! abort-or-success outcome. The coordinator reruns the whole unit of work
//! on a serialization failure, up to a bound; identifier collisions are
//! retried more narrowly, inside the transaction, without discarding
//! unrelated work.

use vstd::prelude::*;

use crate::crypto;
use crate::errors::{Error, TxError, TxResult};
use crate::store::{SessionRow, Store};
use crate::token::Token;

verus! {

/// The work function reported a serialization failure at this attempt: some
/// run of it from this store at this attempt number ends in a retry.
pub open spec fn work_retried<T, E, F: Fn(&Store, u64) -> (Store, TxResult<T, E>)>(
    work: F,
    pre: Store,
    a: u64,
) -> bool {
    exists|s2: Store| call_ensures(work, (&pre, a), (s2, Err(TxError::<E>::Retry)))
}

/// Some run of the work function from this store at this attempt number
/// commits this store-and-value pair.
pub open spec fn work_committed<T, E, F: Fn(&Store, u64) -> (Store, TxResult<T, E>)>(
    work: F,
    pre: Store,
    post: Store,
    v: T,
    max_attempts: u64,
) -> bool {
    exists|a: u64| a < max_attempts && call_ensures(work, (&pre, a), (post, Ok(v)))
}

/// Some run of the work function from this store at some allowed attempt
/// number aborts with this error.
pub open spec fn work_aborted<T, E, F: Fn(&Store, u64) -> (Store, TxResult<T, E>)>(
    work: F,
    pre: Store,
    e: E,
    max_attempts: u64,
) -> bool {
    exists|a: u64, s2: Store|
        a < max_attempts && call_ensures(work, (&pre, a), (s2, Err(TxError::Abort(e))))
}

/// The final outcome of running a unit of work under the retry coordinator.
pub enum TxOutcome<T, E> {
    /// The work succeeded and its transaction committed.
    Committed(T),
    /// The work aborted with a domain error; its transaction rolled back.
    Aborted(E),
    /// Every allowed attempt ended in a store-reported serialization
    /// failure; the store is untouched. Surfaced as fatal rather than
    /// looping forever.
    RetriesExhausted,
}

/// Runs a unit of work inside a serializable-isolation transaction,
/// retrying the whole unit from scratch whenever it signals a retry (the
/// classification of a store-reported serialization failure), up to
/// `max_attempts` times.
///
/// The work function takes the committed store and the attempt number and
/// returns the store it would commit together with its result. On success
/// the returned store is committed; on abort or exhaustion the store is left
/// exactly as it was, so no partial work is ever observable.
pub fn run_in_transaction<T, E, F: Fn(&Store, u64) -> (Store, TxResult<T, E>)>(
    store: &mut Store,
    work: F,
    max_attempts: u64,
) -> (r: TxOutcome<T, E>)
    requires
        forall|a: u64| a < max_attempts ==> #[trigger] call_requires(work, (&*old(store), a)),
    ensures
        match r {
            TxOutcome::Committed(v) => work_committed(
                work,
                *old(store),
                *final(store),
                v,
                max_attempts,
            ),
            TxOutcome::Aborted(e) => *final(store) == *old(store) && work_aborted(
                work,
                *old(store),
                e,
                max_attempts,
            ),
            TxOutcome::RetriesExhausted => *final(store) == *old(store) && forall|a: u64|
                a < max_attempts ==> #[trigger] work_retried(work, *old(store), a),
        },
{
    let mut attempt: u64 = 0;
    loop
        invariant
            attempt <= max_attempts,
            *store == *old(store),
            forall|a: u64| a < max_attempts ==> #[trigger] call_requires(work, (&*store, a)),
            forall|a: u64| a < attempt ==> #[trigger] work_retried(work, *old(store), a),
        decreases max_attempts - attempt,
    {
        if attempt >= max_attempts {
            return TxOutcome::RetriesExhausted;
        }
        let ghost pre = *store;
        let (tx_store, res) = work(&*store, attempt);
        proof {
            assert(call_ensures(work, (&*old(store), attempt), (tx_store, res)));
        }
        match res {
            Ok(v) => {
                *store = tx_store;
                return TxOutcome::Committed(v);
            },
            Err(TxError::Abort(e)) => {
                proof {
                    assert(call_ensures(
                        work,
                        (&*old(store), attempt),
                        (tx_store, Err(TxError::Abort(e))),
                    ));
                }
                return TxOutcome::Aborted(e);
            },
            Err(TxError::Retry) => {
                proof {
                    assert(call_ensures(
                        work,
                        (&*old(store), attempt),
                        (tx_store, Err(TxError::<E>::Retry)),
                    ));
                    assert(work_retried(work, *old(store), attempt));
                }
                attempt = attempt + 1;
            },
        }
    }
}

/// No stored session uses this token hash.
pub open spec fn session_hash_free(s: Store, token_hash: Seq<u8>) -> bool {
    forall|i: int|
        0 <= i < s.sessions@.len() ==> (#[trigger] s.sessions@[i]).token_hash@ != token_hash
}

/// What a successful session creation does to the store: one session row is
/// appended for this user, keyed by a token hash that was free before.
pub open spec fn session_created(pre: Store, post: Store, user_id: Seq<u8>, token: Seq<u8>) -> bool {
    &&& post.sessions@.len() == pre.sessions@.len() + 1
    &&& post.sessions@ == pre.sessions@.push(post.sessions@.last())
    &&& post.sessions@.last().token_hash@ == crypto::sha256_of(token)
    &&& post.sessions@.last().user_id@ == user_id
    &&& session_hash_free(pre, crypto::sha256_of(token))
    &&& post.users@ == pre.users@
    &&& post.totp@ == pre.totp@
    &&& post.unverified_users@ == pre.unverified_users@
    &&& post.password_resets@ == pre.password_resets@
    &&& post.email_change_requests@ == pre.email_change_requests@
    &&& post.terms == pre.terms
}

/// Creates a new user session from a supplied list of candidate tokens and
/// returns the token whose hash was stored.
///
/// Each candidate is tried in order inside a savepoint: if its hash collides
/// with a stored session, only that insert is undone and the next candidate
/// is tried — work already done in the enclosing transaction is preserved.
/// The first candidate with a free hash is inserted. Exhausting the
/// candidates aborts with an opaque internal error and leaves the store
/// unchanged.
pub fn create_session_with(s: &mut Store, user_id: &Vec<u8>, candidates: Vec<Token>) -> (r:
    TxResult<Token, Error>)
    requires
        old(s).wf(),
    ensures
        final(s).wf(),
        match r {
            Ok(token) => exists|j: int|
                {
                    &&& 0 <= j < candidates@.len()
                    &&& token == candidates@[j]
                    &&& forall|m: int|
                        0 <= m < j ==> !session_hash_free(
                            *old(s),
                            crypto::sha256_of((#[trigger] candidates@[m])@),
                        )
                    &&& session_created(*old(s), *final(s), user_id@, token@)
                },
            Err(TxError::Abort(e)) => {
                &&& e is Internal
                &&& *final(s) == *old(s)
                &&& forall|m: int|
                    0 <= m < candidates@.len() ==> !session_hash_free(
                        *old(s),
                        crypto::sha256_of((#[trigger] candidates@[m])@),
                    )
            },
            Err(TxError::Retry) => false,
        },
{
    let mut remaining = candidates;
    let total = remaining.len();
    let mut j: usize = 0;
    while remaining.len() > 0
        invariant
            old(s).wf(),
            *s == *old(s),
            0 <= j,
            candidates@.len() == total,
            j + remaining@.len() == candidates@.len(),
            remaining@ =~= candidates@.subrange(j as int, candidates@.len() as int),
            forall|m: int|
                0 <= m < j ==> !session_hash_free(
                    *old(s),
                    crypto::sha256_of((#[trigger] candidates@[m])@),
                ),
        decreases remaining@.len(),
    {
        let token = remaining.remove(0);
        proof {
            assert(token == candidates@[j as int]);
            assert(remaining@ =~= candidates@.subrange(j as int + 1, candidates@.len() as int));
        }
        let token_hash = token.hash();
        match s.find_session(&token_hash) {
            None => {
                let row = SessionRow {
                    token_hash,
                    user_id: crypto::clone_bytes(user_id),
                };
                s.insert_session(row);
                return Ok(token);
            },
            Some(_) => {
                // The hash is taken: undo just this insert attempt (the
                // savepoint) and reroll by moving on to the next candidate.
                j = j + 1;
            },
        }
    }
    Err(TxError::Abort(Error::Internal))
}

/// Creates a new user session with freshly generated random tokens,
/// rerolling on a hash collision, and returns the session's token. With
/// 128-bit tokens a collision is all but impossible, but the bound keeps
/// exhaustion an explicit, fatal outcome rather than an endless loop.
pub fn create_session(s: &mut Store, user_id: &Vec<u8>) -> (r: TxResult<Token, Error>)
    requires
        old(s).wf(),
    ensures
        final(s).wf(),
        match r {
            Ok(token) => token.wf() && session_created(*old(s), *final(s), user_id@, token@),
            Err(TxError::Abort(e)) => e is Internal && *final(s) == *old(s),
            Err(TxError::Retry) => false,
        },
{
    let mut candidates: Vec<Token> = Vec::new();
    let mut i: usize = 0;
    while i < 8
        invariant
            0 <= i <= 8,
            candidates@.len() == i,
            forall|m: int| 0 <= m < i ==> (#[trigger] candidates@[m]).wf(),
        decreases 8 - i,
    {
        candidates.push(Token::generate());
        i = i + 1;
    }
    create_session_with(s, user_id, candidates)
}

} // verus!
