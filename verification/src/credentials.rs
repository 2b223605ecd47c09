//! The credential model: a closed set of credential variants for
//! first-factor, second-factor and combined multi-factor authentication,
//! each with a verified `verify` operation against the store.
//!
//! Anti-replay for one-time codes is enforced here through the store's
//! recorded markers, not inside the TOTP primitive.

use vstd::prelude::*;

use crate::crypto;
use crate::crypto::{argon2_verifies, totp_accepted};
use crate::errors::{Error, TxError, TxResult};
use crate::store::{
    backup_code_removed, backup_codes_contain, otp_is_replay, otp_window_shifted, OtpWindowShift,
    Store,
};
use crate::validation::{Otp, UserPassword};

verus! {

/// User credentials exclusively for first-factor authentication.
pub enum ExclusiveFirstFactorCredentials {
    /// Credentials for password-based authentication.
    Password {
        /// The user's password in plain text.
        password: UserPassword,
    },
}

/// User credentials exclusively for second-factor authentication.
pub enum ExclusiveSecondFactorCredentials {
    /// Credentials for TOTP-based second-factor authentication.
    Totp {
        /// The one-time password.
        otp: Otp,
    },
}

/// User credentials for multi-factor authentication that can't be divided
/// into separate first and second authentication factors. No such credential
/// kind currently exists: the private marker is never built, so no value of
/// this type is ever created; the type is kept as an extensibility point.
pub struct ExclusiveMultiFactorCredentials {
    marker: (),
}

impl ExclusiveMultiFactorCredentials {
    /// Verifies undivided multi-factor credentials. No kind of them exists
    /// yet, so there is nothing to accept.
    pub fn verify(&self, s: &mut Store, user_id: &Vec<u8>) -> (r: TxResult<(), Error>)
        requires
            old(s).wf(),
        ensures
            final(s).wf(),
            *final(s) == *old(s),
            r == TxResult::<(), Error>::Err(TxError::<Error>::Abort(Error::Internal)),
    {
        Err(TxError::Abort(Error::Internal))
    }
}

/// User credentials for first-factor authentication. Multi-factor
/// credentials are also accepted because they cover the first factor.
pub enum FirstFactorCredentials {
    /// Exclusively first-factor credentials.
    First(ExclusiveFirstFactorCredentials),
    /// Multi-factor credentials, covering the first factor.
    Multi(ExclusiveMultiFactorCredentials),
}

/// User credentials where second-factor authentication is required (if
/// enabled for the user). Multi-factor credentials are also accepted.
pub enum SecondFactorCredentials {
    /// Exclusively second-factor credentials, if the user has any
    /// second-factor method enabled.
    Second(Option<ExclusiveSecondFactorCredentials>),
    /// Multi-factor credentials, covering the second factor.
    Multi(ExclusiveMultiFactorCredentials),
}

/// User credentials where multi-factor authentication is required (if
/// enabled for the user's chosen authentication method).
pub enum MultiFactorCredentials {
    /// Separate first and (optional) second authentication factors.
    FirstAndSecond {
        /// The first-factor credentials.
        first: ExclusiveFirstFactorCredentials,
        /// The second-factor credentials, if the user has any second-factor
        /// method enabled.
        second: Option<ExclusiveSecondFactorCredentials>,
    },
    /// Multi-factor credentials not divided into separate factors.
    Multi(ExclusiveMultiFactorCredentials),
}

/// A second-factor authentication method kind.
pub enum SecondFactorAuthMethod {
    /// Time-based one-time passwords.
    Totp,
}

/// Whether the store holds a user with this ID whose password hash the
/// submitted password verifies against.
pub open spec fn password_accepted(s: Store, user_id: Seq<u8>, password: Seq<char>) -> bool {
    exists|i: int|
        0 <= i < s.users@.len() && (#[trigger] s.users@[i]).id@ == user_id && argon2_verifies(
            password,
            s.users@[i].password_hash@,
        )
}

/// Whether the store holds a user with this ID at all.
pub open spec fn user_exists(s: Store, user_id: Seq<u8>) -> bool {
    exists|i: int| 0 <= i < s.users@.len() && (#[trigger] s.users@[i]).id@ == user_id
}

/// Whether the store holds a second-factor configuration for this user,
/// which is what makes a second factor required.
pub open spec fn second_factor_enabled(s: Store, user_id: Seq<u8>) -> bool {
    exists|i: int| 0 <= i < s.totp@.len() && (#[trigger] s.totp@[i]).user_id@ == user_id
}

/// The store's tables other than the second-factor one are untouched.
pub open spec fn only_totp_changed(pre: Store, post: Store) -> bool {
    &&& post.users@ == pre.users@
    &&& post.sessions@ == pre.sessions@
    &&& post.unverified_users@ == pre.unverified_users@
    &&& post.password_resets@ == pre.password_resets@
    &&& post.email_change_requests@ == pre.email_change_requests@
    &&& post.terms == pre.terms
}

/// Some second-factor row of the user holds the submitted code among its
/// unused backup codes.
pub open spec fn second_factor_has_backup_code(
    pre: Store,
    user_id: Seq<u8>,
    otp: Seq<char>,
) -> bool {
    exists|i: int|
        0 <= i < pre.totp@.len() && (#[trigger] pre.totp@[i]).user_id@ == user_id
            && backup_codes_contain(pre.totp@[i], otp)
}

/// What one second-factor verification attempt does: which store transition
/// happened and which outcome it produced.
///
/// The two paths are tried in order, first success wins:
/// - the backup-code path applies whenever the submitted code is among the
///   user's unused backup codes: it atomically removes the code and
///   succeeds;
/// - otherwise the rolling-code path shifts the anti-replay window, but
///   only if the submitted code differs from both recorded markers, and
///   then checks the code cryptographically. The shift stands even when the
///   cryptographic check fails, so a wrong code still consumes a window
///   slot.
pub open spec fn second_factor_outcome(
    pre: Store,
    post: Store,
    user_id: Seq<u8>,
    otp: Seq<char>,
    time: u64,
    r: TxResult<(), Error>,
) -> bool {
    &&& only_totp_changed(pre, post)
    &&& if second_factor_has_backup_code(pre, user_id, otp) {
        &&& second_factor_used_backup_code(pre, post, user_id, otp)
        &&& r == TxResult::<(), Error>::Ok(())
    } else if !second_factor_enabled(pre, user_id) {
        &&& post.totp@ == pre.totp@
        &&& r == TxResult::<(), Error>::Err(TxError::<Error>::Abort(
            Error::SecondFactorCredentialsWrong,
        ))
    } else if second_factor_replayed(pre, user_id, otp) {
        &&& post.totp@ == pre.totp@
        &&& r == TxResult::<(), Error>::Err(TxError::<Error>::Abort(
            Error::SecondFactorCredentialsWrong,
        ))
    } else {
        &&& second_factor_window_shifted(pre, post, user_id, otp)
        &&& if second_factor_code_right(pre, user_id, otp, time) {
            r == TxResult::<(), Error>::Ok(())
        } else {
            r == TxResult::<(), Error>::Err(TxError::<Error>::Abort(
                Error::SecondFactorCredentialsWrong,
            ))
        }
    }
}

/// The backup-code path applied: the user's row held the submitted code and
/// every occurrence of it left the unused set.
pub open spec fn second_factor_used_backup_code(
    pre: Store,
    post: Store,
    user_id: Seq<u8>,
    otp: Seq<char>,
) -> bool {
    exists|i: int|
        {
            &&& 0 <= i < pre.totp@.len()
            &&& (#[trigger] pre.totp@[i]).user_id@ == user_id
            &&& backup_codes_contain(pre.totp@[i], otp)
            &&& post.totp@ == pre.totp@.update(i, post.totp@[i])
            &&& backup_code_removed(pre.totp@[i], post.totp@[i], otp)
        }
}

/// The submitted code equals a recorded anti-replay marker of the user's
/// row (and the backup-code path did not apply).
pub open spec fn second_factor_replayed(pre: Store, user_id: Seq<u8>, otp: Seq<char>) -> bool {
    exists|i: int|
        0 <= i < pre.totp@.len() && (#[trigger] pre.totp@[i]).user_id@ == user_id && !backup_codes_contain(
            pre.totp@[i],
            otp,
        ) && otp_is_replay(pre.totp@[i], otp)
}

/// The anti-replay window of the user's row shifted to record the submitted
/// code.
pub open spec fn second_factor_window_shifted(
    pre: Store,
    post: Store,
    user_id: Seq<u8>,
    otp: Seq<char>,
) -> bool {
    exists|i: int|
        {
            &&& 0 <= i < pre.totp@.len()
            &&& (#[trigger] pre.totp@[i]).user_id@ == user_id
            &&& post.totp@ == pre.totp@.update(i, post.totp@[i])
            &&& otp_window_shifted(pre.totp@[i], post.totp@[i], otp)
        }
}

/// The user's row holds a verified secret and the submitted code matches it
/// at the current or immediately preceding time step.
pub open spec fn second_factor_code_right(
    pre: Store,
    user_id: Seq<u8>,
    otp: Seq<char>,
    time: u64,
) -> bool {
    exists|i: int|
        {
            &&& 0 <= i < pre.totp@.len()
            &&& (#[trigger] pre.totp@[i]).user_id@ == user_id
            &&& pre.totp@[i].secret matches Some(sec) && totp_accepted(sec@, otp, time)
        }
}

impl SecondFactorAuthMethod {
    /// Every known second-factor method kind.
    pub fn all() -> (r: Vec<SecondFactorAuthMethod>)
        ensures
            r@.len() == 1,
            r@[0] is Totp,
    {
        let mut methods: Vec<SecondFactorAuthMethod> = Vec::new();
        methods.push(SecondFactorAuthMethod::Totp);
        methods
    }

    /// Checks if the second-factor method is enabled for a user.
    pub fn is_enabled_for_user(&self, s: &Store, user_id: &Vec<u8>) -> (r: bool)
        ensures
            r == match *self {
                SecondFactorAuthMethod::Totp => second_factor_enabled(*s, user_id@),
            },
    {
        match self {
            SecondFactorAuthMethod::Totp => s.find_totp(user_id).is_some(),
        }
    }
}

impl ExclusiveFirstFactorCredentials {
    /// Verifies the first-factor credentials against the user's stored
    /// password hash. Failure signals the generic first-factor error, never
    /// revealing which part was wrong; a missing user row is an internal
    /// error, since callers resolve the user first.
    pub fn verify(&self, s: &Store, user_id: &Vec<u8>) -> (r: TxResult<(), Error>)
        requires
            s.wf(),
        ensures
            match r {
                Ok(()) => {
                    let ExclusiveFirstFactorCredentials::Password { password } = *self;
                    password_accepted(*s, user_id@, password@)
                },
                Err(TxError::Abort(e)) => {
                    let ExclusiveFirstFactorCredentials::Password { password } = *self;
                    ||| (e is Internal && !user_exists(*s, user_id@))
                    ||| (e is FirstFactorCredentialsWrong && user_exists(*s, user_id@)
                        && !password_accepted(*s, user_id@, password@))
                },
                Err(TxError::Retry) => false,
            },
    {
        match self {
            ExclusiveFirstFactorCredentials::Password { password } => {
                let i = match s.find_user_by_id(user_id) {
                    Some(i) => i,
                    None => {
                        return Err(TxError::Abort(Error::Internal));
                    },
                };
                if crypto::verify_hash(password.as_str(), s.users[i].password_hash.as_str()) {
                    return Ok(());
                }
                proof {
                    assert forall|j: int|
                        0 <= j < s.users@.len() && (#[trigger] s.users@[j]).id@ == user_id@
                            implies !argon2_verifies(
                        match *self {
                            ExclusiveFirstFactorCredentials::Password { password } => password@,
                        },
                        s.users@[j].password_hash@,
                    ) by {
                        if j != i {
                            assert(s.users@[j].id@ != s.users@[i as int].id@);
                        }
                    }
                }
                Err(TxError::Abort(Error::FirstFactorCredentialsWrong))
            },
        }
    }
}

impl ExclusiveSecondFactorCredentials {
    /// Verifies the second-factor credentials: the backup-code path first,
    /// then the rolling-code path with its anti-replay guard. Failure of
    /// both signals the generic second-factor error.
    pub fn verify(&self, s: &mut Store, user_id: &Vec<u8>, time: u64) -> (r: TxResult<(), Error>)
        requires
            old(s).wf(),
        ensures
            final(s).wf(),
            match *self {
                ExclusiveSecondFactorCredentials::Totp { otp } => second_factor_outcome(
                    *old(s),
                    *final(s),
                    user_id@,
                    otp@,
                    time,
                    r,
                ),
            },
    {
        match self {
            ExclusiveSecondFactorCredentials::Totp { otp } => {
                if s.consume_backup_code(user_id, otp.as_str()) {
                    return Ok(());
                }
                match s.shift_otp_window(user_id, otp.as_str()) {
                    OtpWindowShift::NoConfig => Err(TxError::Abort(
                        Error::SecondFactorCredentialsWrong,
                    )),
                    OtpWindowShift::Replayed => Err(TxError::Abort(
                        Error::SecondFactorCredentialsWrong,
                    )),
                    OtpWindowShift::Shifted(secret) => {
                        match secret {
                            Some(secret) => {
                                if crypto::verify_totp(otp.as_str(), &secret, time) {
                                    Ok(())
                                } else {
                                    Err(TxError::Abort(Error::SecondFactorCredentialsWrong))
                                }
                            },
                            None => Err(TxError::Abort(Error::SecondFactorCredentialsWrong)),
                        }
                    },
                }
            },
        }
    }
}

/// Verifies optionally supplied second-factor credentials. Supplied ones are
/// verified; absent ones are accepted exactly when no second-factor method
/// is enabled for the user, which is checked by iterating all known method
/// kinds.
pub fn verify_optional_second_factor(
    cred: &Option<ExclusiveSecondFactorCredentials>,
    s: &mut Store,
    user_id: &Vec<u8>,
    time: u64,
) -> (r: TxResult<(), Error>)
    requires
        old(s).wf(),
    ensures
        final(s).wf(),
        match *cred {
            Some(c) => {
                let ExclusiveSecondFactorCredentials::Totp { otp } = c;
                second_factor_outcome(*old(s), *final(s), user_id@, otp@, time, r)
            },
            None => {
                &&& *final(s) == *old(s)
                &&& if second_factor_enabled(*old(s), user_id@) {
                    r == TxResult::<(), Error>::Err(TxError::<Error>::Abort(
                        Error::SecondFactorCredentialsWrong,
                    ))
                } else {
                    r == TxResult::<(), Error>::Ok(())
                }
            },
        },
{
    match cred {
        Some(credentials) => credentials.verify(s, user_id, time),
        None => {
            let methods = SecondFactorAuthMethod::all();
            let ghost s0 = *s;
            let mut i: usize = 0;
            while i < methods.len()
                invariant
                    *cred is None,
                    0 <= i <= methods@.len(),
                    methods@.len() == 1,
                    methods@[0] is Totp,
                    s0 == *old(s),
                    *s == s0,
                    i > 0 ==> !second_factor_enabled(*s, user_id@),
                    s.wf(),
                decreases methods@.len() - i,
            {
                if methods[i].is_enabled_for_user(s, user_id) {
                    return Err(TxError::Abort(Error::SecondFactorCredentialsWrong));
                }
                i = i + 1;
            }
            Ok(())
        },
    }
}

impl FirstFactorCredentials {
    /// Verifies credentials covering the first factor.
    pub fn verify(&self, s: &Store, user_id: &Vec<u8>) -> (r: TxResult<(), Error>)
        requires
            s.wf(),
        ensures
            match *self {
                FirstFactorCredentials::First(first) => {
                    let ExclusiveFirstFactorCredentials::Password { password } = first;
                    match r {
                        Ok(()) => password_accepted(*s, user_id@, password@),
                        Err(TxError::Abort(e)) => {
                            ||| (e is Internal && !user_exists(*s, user_id@))
                            ||| (e is FirstFactorCredentialsWrong && user_exists(*s, user_id@)
                                && !password_accepted(*s, user_id@, password@))
                        },
                        Err(TxError::Retry) => false,
                    }
                },
                FirstFactorCredentials::Multi(_) => r == TxResult::<(), Error>::Err(TxError::<
                    Error,
                >::Abort(Error::Internal)),
            },
    {
        match self {
            FirstFactorCredentials::First(first) => first.verify(s, user_id),
            FirstFactorCredentials::Multi(_) => Err(TxError::Abort(Error::Internal)),
        }
    }
}

impl SecondFactorCredentials {
    /// Verifies credentials covering the second factor.
    pub fn verify(&self, s: &mut Store, user_id: &Vec<u8>, time: u64) -> (r: TxResult<(), Error>)
        requires
            old(s).wf(),
        ensures
            final(s).wf(),
            match *self {
                SecondFactorCredentials::Second(second) => match second {
                    Some(c) => {
                        let ExclusiveSecondFactorCredentials::Totp { otp } = c;
                        second_factor_outcome(*old(s), *final(s), user_id@, otp@, time, r)
                    },
                    None => {
                        &&& *final(s) == *old(s)
                        &&& if second_factor_enabled(*old(s), user_id@) {
                            r == TxResult::<(), Error>::Err(TxError::<Error>::Abort(
                                Error::SecondFactorCredentialsWrong,
                            ))
                        } else {
                            r == TxResult::<(), Error>::Ok(())
                        }
                    },
                },
                SecondFactorCredentials::Multi(_) => *final(s) == *old(s) && r == TxResult::<
                    (),
                    Error,
                >::Err(TxError::<Error>::Abort(Error::Internal)),
            },
    {
        match self {
            SecondFactorCredentials::Second(second) => verify_optional_second_factor(
                second,
                s,
                user_id,
                time,
            ),
            SecondFactorCredentials::Multi(multi) => multi.verify(s, user_id),
        }
    }
}

/// What one multi-factor verification attempt does: the first factor is
/// checked against the stored password hash; only when it passes is the
/// second factor considered, which is required exactly when some
/// second-factor method is enabled for the user.
pub open spec fn multi_factor_outcome(
    pre: Store,
    post: Store,
    user_id: Seq<u8>,
    password: Seq<char>,
    second: Option<ExclusiveSecondFactorCredentials>,
    time: u64,
    r: TxResult<(), Error>,
) -> bool {
    if !user_exists(pre, user_id) {
        post == pre && r == TxResult::<(), Error>::Err(TxError::<Error>::Abort(Error::Internal))
    } else if !password_accepted(pre, user_id, password) {
        post == pre && r == TxResult::<(), Error>::Err(TxError::<Error>::Abort(
            Error::FirstFactorCredentialsWrong,
        ))
    } else {
        match second {
            Some(c) => {
                let ExclusiveSecondFactorCredentials::Totp { otp } = c;
                second_factor_outcome(pre, post, user_id, otp@, time, r)
            },
            None => {
                &&& post == pre
                &&& if second_factor_enabled(pre, user_id) {
                    r == TxResult::<(), Error>::Err(TxError::<Error>::Abort(
                        Error::SecondFactorCredentialsWrong,
                    ))
                } else {
                    r == TxResult::<(), Error>::Ok(())
                }
            },
        }
    }
}

impl MultiFactorCredentials {
    /// Verifies multi-factor credentials: the first factor, then, if any
    /// second-factor method is enabled for the user, a matching second
    /// factor; an absent second factor is accepted only when none is
    /// enabled.
    pub fn verify(&self, s: &mut Store, user_id: &Vec<u8>, time: u64) -> (r: TxResult<(), Error>)
        requires
            old(s).wf(),
        ensures
            final(s).wf(),
            match *self {
                MultiFactorCredentials::FirstAndSecond { first, second } => {
                    let ExclusiveFirstFactorCredentials::Password { password } = first;
                    multi_factor_outcome(
                        *old(s),
                        *final(s),
                        user_id@,
                        password@,
                        second,
                        time,
                        r,
                    )
                },
                MultiFactorCredentials::Multi(_) => *final(s) == *old(s) && r == TxResult::<
                    (),
                    Error,
                >::Err(TxError::<Error>::Abort(Error::Internal)),
            },
    {
        match self {
            MultiFactorCredentials::FirstAndSecond { first, second } => {
                match first.verify(s, user_id) {
                    Ok(()) => {},
                    Err(e) => {
                        return Err(e);
                    },
                }
                verify_optional_second_factor(second, s, user_id, time)
            },
            MultiFactorCredentials::Multi(multi) => multi.verify(s, user_id),
        }
    }
}

} // verus!
