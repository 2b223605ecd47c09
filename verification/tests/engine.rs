//! The credential engine: multi-factor verification, anti-replay, backup
//! codes, session creation under collisions, and the retry coordinator.

use identity_engine::credentials::{
    ExclusiveFirstFactorCredentials, ExclusiveSecondFactorCredentials, MultiFactorCredentials,
};
use identity_engine::crypto;
use identity_engine::errors::{Error, TxError};
use identity_engine::flows;
use identity_engine::store::{Store, TotpRow, UserRow};
use identity_engine::token::Token;
use identity_engine::tx;
use identity_engine::validation::{Otp, UserPassword};

fn otp_of(code: &str) -> Otp {
    match Otp::try_from(String::from(code)) {
        Ok(otp) => otp,
        Err(_) => panic!("otp {code:?} should be within bounds"),
    }
}

fn password_of(password: &str) -> UserPassword {
    match UserPassword::try_from(String::from(password)) {
        Ok(p) => p,
        Err(_) => panic!("password should be within bounds"),
    }
}

fn store_with_user(user_id: &[u8], email: &str, password: &str) -> Store {
    let mut store = Store::new();
    store.insert_user(UserRow {
        id: user_id.to_vec(),
        email: String::from(email),
        name: String::from("Test User"),
        password_hash: crypto::hash_with_salt(password),
        accepted_terms_at: 0,
    });
    store
}

fn enable_totp(store: &mut Store, user_id: &[u8], secret: &[u8], backup_codes: &[&str]) {
    store.insert_totp(TotpRow {
        user_id: user_id.to_vec(),
        secret: Some(secret.to_vec()),
        unverified_secret: None,
        otp_used_last: None,
        otp_used_2nd_to_last: None,
        unused_backup_codes: backup_codes.iter().map(|c| String::from(*c)).collect(),
    });
}

#[test]
fn session_creation_rerolls_on_collision() {
    let mut store = store_with_user(b"user-1", "someone@example.com", "hunter2!");
    let uid = b"user-1".to_vec();

    let token_a = || Token::from_bytes(vec![1u8; 16]);
    let token_b = || Token::from_bytes(vec![2u8; 16]);

    // The first creation stores the first candidate.
    let first = tx::create_session_with(&mut store, &uid, vec![token_a(), token_b()]);
    assert!(first.is_ok());
    assert_eq!(store.count_sessions_for_user(&uid), 1);

    // The second creation collides on the first candidate and rerolls to
    // the second; unrelated work (the first row) is preserved.
    let second = tx::create_session_with(&mut store, &uid, vec![token_a(), token_b()]);
    assert!(second.is_ok());
    assert_eq!(store.count_sessions_for_user(&uid), 2);
    assert!(store.sessions_distinct());

    // With the artificially small space exhausted, creation fails and the
    // stored rows stay unique and untouched.
    let third = tx::create_session_with(&mut store, &uid, vec![token_a(), token_b()]);
    assert!(matches!(third, Err(TxError::Abort(Error::Internal))));
    assert_eq!(store.count_sessions_for_user(&uid), 2);
    assert!(store.sessions_distinct());
}

#[test]
fn totp_code_consumed_on_use() {
    let secret = [7u8; 20];
    let time: u64 = 1_700_000_000;
    let mut store = store_with_user(b"user-1", "someone@example.com", "hunter2!");
    let uid = b"user-1".to_vec();
    enable_totp(&mut store, b"user-1", &secret, &[]);

    let code = crypto::totp_generate(&secret.to_vec(), time);
    let cred = ExclusiveSecondFactorCredentials::Totp { otp: otp_of(&code) };

    // The first submission of a valid code succeeds.
    assert!(cred.verify(&mut store, &uid, time).is_ok());

    // The same code resubmitted immediately is already consumed.
    let cred = ExclusiveSecondFactorCredentials::Totp { otp: otp_of(&code) };
    let replay = cred.verify(&mut store, &uid, time);
    assert!(matches!(
        replay,
        Err(TxError::Abort(Error::SecondFactorCredentialsWrong))
    ));
}

#[test]
fn adjacent_step_codes_both_accepted() {
    let secret = [9u8; 20];
    let time: u64 = 1_700_000_000;
    let mut store = store_with_user(b"user-1", "someone@example.com", "hunter2!");
    let uid = b"user-1".to_vec();
    enable_totp(&mut store, b"user-1", &secret, &[]);

    let code_now = crypto::totp_generate(&secret.to_vec(), time);
    let code_next = crypto::totp_generate(&secret.to_vec(), time + 30);
    assert_ne!(code_now, code_next, "distinct steps should give distinct codes here");

    let cred = ExclusiveSecondFactorCredentials::Totp { otp: otp_of(&code_now) };
    assert!(cred.verify(&mut store, &uid, time).is_ok());

    // A different code from the next step is accepted in sequence.
    let cred = ExclusiveSecondFactorCredentials::Totp { otp: otp_of(&code_next) };
    assert!(cred.verify(&mut store, &uid, time + 30).is_ok());

    // The first code is now the second-to-last-used marker and is refused,
    // even though the clock-skew window would still accept it.
    let cred = ExclusiveSecondFactorCredentials::Totp { otp: otp_of(&code_now) };
    let replay = cred.verify(&mut store, &uid, time + 30);
    assert!(matches!(
        replay,
        Err(TxError::Abort(Error::SecondFactorCredentialsWrong))
    ));
}

#[test]
fn wrong_code_still_consumes_window_slot() {
    let secret = [4u8; 20];
    let time: u64 = 1_700_000_000;
    let mut store = store_with_user(b"user-1", "someone@example.com", "hunter2!");
    let uid = b"user-1".to_vec();
    enable_totp(&mut store, b"user-1", &secret, &[]);

    // A cryptographically wrong code fails, but the anti-replay window
    // shift already happened: the wrong code is recorded as last used.
    // This deliberately closes a timing side-channel and is preserved
    // exactly.
    let cred = ExclusiveSecondFactorCredentials::Totp { otp: otp_of("000000") };
    let wrong = cred.verify(&mut store, &uid, time);
    assert!(matches!(
        wrong,
        Err(TxError::Abort(Error::SecondFactorCredentialsWrong))
    ));
    assert_eq!(store.totp[0].otp_used_last.as_deref(), Some("000000"));
}

#[test]
fn backup_code_single_use() {
    let secret = [3u8; 20];
    let time: u64 = 1_700_000_000;
    let mut store = store_with_user(b"user-1", "someone@example.com", "hunter2!");
    let uid = b"user-1".to_vec();
    enable_totp(&mut store, b"user-1", &secret, &["ABCD2345", "XYZW6789"]);

    let cred = ExclusiveSecondFactorCredentials::Totp { otp: otp_of("ABCD2345") };
    assert!(cred.verify(&mut store, &uid, time).is_ok());

    // The code left the unused set.
    assert_eq!(store.totp[0].unused_backup_codes, vec![String::from("XYZW6789")]);

    // A second submission of the same code fails.
    let cred = ExclusiveSecondFactorCredentials::Totp { otp: otp_of("ABCD2345") };
    let replay = cred.verify(&mut store, &uid, time);
    assert!(matches!(
        replay,
        Err(TxError::Abort(Error::SecondFactorCredentialsWrong))
    ));
}

#[test]
fn multi_factor_composition() {
    let secret = [5u8; 20];
    let time: u64 = 1_700_000_000;
    let uid = b"user-1".to_vec();

    // A user with no second factor is authenticated by first factor alone.
    let mut store = store_with_user(b"user-1", "someone@example.com", "hunter2!");
    let cred = MultiFactorCredentials::FirstAndSecond {
        first: ExclusiveFirstFactorCredentials::Password { password: password_of("hunter2!") },
        second: None,
    };
    assert!(cred.verify(&mut store, &uid, time).is_ok());

    // With a second factor enabled, first factor alone is rejected.
    enable_totp(&mut store, b"user-1", &secret, &[]);
    let cred = MultiFactorCredentials::FirstAndSecond {
        first: ExclusiveFirstFactorCredentials::Password { password: password_of("hunter2!") },
        second: None,
    };
    assert!(matches!(
        cred.verify(&mut store, &uid, time),
        Err(TxError::Abort(Error::SecondFactorCredentialsWrong))
    ));

    // Both factors right: accepted.
    let code = crypto::totp_generate(&secret.to_vec(), time);
    let cred = MultiFactorCredentials::FirstAndSecond {
        first: ExclusiveFirstFactorCredentials::Password { password: password_of("hunter2!") },
        second: Some(ExclusiveSecondFactorCredentials::Totp { otp: otp_of(&code) }),
    };
    assert!(cred.verify(&mut store, &uid, time).is_ok());

    // A wrong password is rejected before the second factor is considered.
    let code = crypto::totp_generate(&secret.to_vec(), time + 30);
    let cred = MultiFactorCredentials::FirstAndSecond {
        first: ExclusiveFirstFactorCredentials::Password { password: password_of("wrong") },
        second: Some(ExclusiveSecondFactorCredentials::Totp { otp: otp_of(&code) }),
    };
    assert!(matches!(
        cred.verify(&mut store, &uid, time + 30),
        Err(TxError::Abort(Error::FirstFactorCredentialsWrong))
    ));
}

#[test]
fn sign_in_enumeration_resistance() {
    let time: u64 = 1_700_000_000;
    let mut store = store_with_user(b"user-1", "someone@example.com", "hunter2!");

    let creds = |password: &str| MultiFactorCredentials::FirstAndSecond {
        first: ExclusiveFirstFactorCredentials::Password { password: password_of(password) },
        second: None,
    };
    let candidates = || vec![Token::from_bytes(vec![8u8; 16])];

    // Unknown email.
    let unknown = flows::sign_in_tx(
        &mut store,
        "nobody@example.com",
        &creds("hunter2!"),
        time,
        candidates(),
    );
    let code_unknown = match unknown {
        Err(TxError::Abort(e)) => e.code(),
        _ => panic!("sign-in with an unknown email should fail"),
    };

    // Known email, wrong password.
    let wrong = flows::sign_in_tx(
        &mut store,
        "someone@example.com",
        &creds("not-the-password"),
        time,
        candidates(),
    );
    let code_wrong = match wrong {
        Err(TxError::Abort(e)) => e.code(),
        _ => panic!("sign-in with a wrong password should fail"),
    };

    // The two failures are indistinguishable by error code.
    assert_eq!(code_unknown, "FIRST_FACTOR_CREDENTIALS_WRONG");
    assert_eq!(code_unknown, code_wrong);
    assert_eq!(store.count_sessions_for_user(&b"user-1".to_vec()), 0);

    // The right credentials sign in and create a session.
    let ok = flows::sign_in_tx(
        &mut store,
        "someone@example.com",
        &creds("hunter2!"),
        time,
        candidates(),
    );
    assert!(ok.is_ok());
    assert_eq!(store.count_sessions_for_user(&b"user-1".to_vec()), 1);
}

#[test]
fn transaction_retry_and_atomicity() {
    let time: u64 = 1_700_000_000;
    let mut store = store_with_user(b"user-1", "someone@example.com", "hunter2!");
    let uid = b"user-1".to_vec();
    let session = tx::create_session(&mut store, &uid).expect("session should be created");
    let token_hash = session.hash();

    // A serialization failure injected on the first attempt: the work is
    // retried from scratch and commits on the second attempt.
    let name = match identity_engine::validation::UserName::try_from(String::from("New Name")) {
        Ok(n) => n,
        Err(_) => panic!("name should be within bounds"),
    };
    let work = |s: &Store, attempt: u64| -> (Store, Result<(), TxError<Error>>) {
        let mut tx_store = s.duplicate();
        if attempt == 0 {
            return (tx_store, Err(TxError::Retry));
        }
        let r = flows::change_name_tx(&mut tx_store, &token_hash, &name);
        (tx_store, r)
    };
    let outcome = tx::run_in_transaction(&mut store, work, 5);
    assert!(matches!(outcome, tx::TxOutcome::Committed(())));
    assert_eq!(store.users[0].name, "New Name");

    // An abort mid-transaction rolls everything back: the session the work
    // created before failing is not observable afterwards.
    let sessions_before = store.count_sessions_for_user(&uid);
    let work = |s: &Store, _attempt: u64| -> (Store, Result<(), TxError<Error>>) {
        let mut tx_store = s.duplicate();
        let created = tx::create_session(&mut tx_store, &uid);
        assert!(created.is_ok());
        (tx_store, Err(TxError::Abort(Error::CaptchaFailed)))
    };
    let outcome = tx::run_in_transaction(&mut store, work, 5);
    assert!(matches!(outcome, tx::TxOutcome::Aborted(Error::CaptchaFailed)));
    assert_eq!(store.count_sessions_for_user(&uid), sessions_before);

    // Exhausting every attempt leaves the store untouched and is surfaced.
    let work = |s: &Store, _attempt: u64| -> (Store, Result<(), TxError<Error>>) {
        (s.duplicate(), Err(TxError::Retry))
    };
    let outcome = tx::run_in_transaction(&mut store, work, 3);
    assert!(matches!(outcome, tx::TxOutcome::RetriesExhausted));
    assert_eq!(store.users[0].name, "New Name");
}

#[test]
fn totp_concrete_scenario() {
    // Fixed secret and time: the generated code is accepted once, consumed,
    // and the next step's code is accepted afterwards.
    let secret = [42u8; 20];
    let time: u64 = 59;
    let mut store = store_with_user(b"user-1", "someone@example.com", "hunter2!");
    let uid = b"user-1".to_vec();
    enable_totp(&mut store, b"user-1", &secret, &[]);

    let code = crypto::totp_generate(&secret.to_vec(), time);
    assert_eq!(code.len(), 6);
    assert!(code.chars().all(|c| c.is_ascii_digit()));

    let cred = ExclusiveSecondFactorCredentials::Totp { otp: otp_of(&code) };
    assert!(cred.verify(&mut store, &uid, time).is_ok());

    let cred = ExclusiveSecondFactorCredentials::Totp { otp: otp_of(&code) };
    assert!(cred.verify(&mut store, &uid, time).is_err());

    let next = crypto::totp_generate(&secret.to_vec(), time + 30);
    let cred = ExclusiveSecondFactorCredentials::Totp { otp: otp_of(&next) };
    assert!(cred.verify(&mut store, &uid, time + 30).is_ok());
}

#[test]
fn sign_up_consumes_verification_request() {
    let mut store = Store::new();
    let verification_token = Token::from_bytes(vec![11u8; 16]);
    let decision = flows::request_email_verification_tx(
        &mut store,
        "new@example.com",
        7,
        &verification_token,
    );
    assert!(matches!(decision, Ok(flows::SendDecision::Verification)));

    let name = match identity_engine::validation::UserName::try_from(String::from("Newcomer")) {
        Ok(n) => n,
        Err(_) => panic!("name should be within bounds"),
    };
    let password_hash = crypto::hash_with_salt("s3cretpass");
    let signed_up = flows::sign_up_tx(
        &mut store,
        &flows::EmailVerification::Token { token: Token::from_bytes(vec![11u8; 16]) },
        &name,
        &password_hash,
        vec![b"user-9".to_vec()],
        vec![Token::from_bytes(vec![12u8; 16])],
    );
    let (user_id, _session) = signed_up.expect("sign-up should succeed");
    assert_eq!(user_id, b"user-9".to_vec());
    assert_eq!(store.users.len(), 1);
    assert_eq!(store.users[0].email, "new@example.com");
    assert_eq!(store.users[0].accepted_terms_at, 7);
    assert!(store.unverified_users.is_empty());

    // The request was consumed: the same token verifies nothing anymore.
    let again = flows::sign_up_tx(
        &mut store,
        &flows::EmailVerification::Token { token: Token::from_bytes(vec![11u8; 16]) },
        &name,
        &password_hash,
        vec![b"user-10".to_vec()],
        vec![Token::from_bytes(vec![13u8; 16])],
    );
    assert!(matches!(
        again,
        Err(TxError::Abort(Error::EmailVerificationWrong))
    ));
}

#[test]
fn password_change_expires_every_session() {
    let mut store = store_with_user(b"user-1", "someone@example.com", "hunter2!");
    let uid = b"user-1".to_vec();
    let current = tx::create_session(&mut store, &uid).ok().unwrap();
    let other = tx::create_session(&mut store, &uid).ok().unwrap();
    assert_eq!(store.count_sessions_for_user(&uid), 2);

    let credentials = identity_engine::credentials::FirstFactorCredentials::First(
        ExclusiveFirstFactorCredentials::Password { password: password_of("hunter2!") },
    );
    let new_hash = crypto::hash_with_salt("n3w-passw0rd");
    let changed = flows::change_password_tx(
        &mut store,
        &current.hash(),
        &credentials,
        &new_hash,
        vec![Token::from_bytes(vec![21u8; 16])],
    );
    let fresh = changed.ok().unwrap();

    // Every pre-existing session is destroyed, the calling one included;
    // only the freshly issued session remains.
    assert_eq!(store.count_sessions_for_user(&uid), 1);
    assert!(store.find_session(&current.hash()).is_none());
    assert!(store.find_session(&other.hash()).is_none());
    assert!(store.find_session(&fresh.hash()).is_some());
    assert!(crypto::verify_hash("n3w-passw0rd", &store.users[0].password_hash));

    // The destroyed session no longer authenticates.
    let stale = flows::change_password_tx(
        &mut store,
        &current.hash(),
        &credentials,
        &new_hash,
        vec![Token::from_bytes(vec![22u8; 16])],
    );
    assert!(matches!(stale, Err(TxError::Abort(Error::AuthFailed))));

    // The old password no longer passes from the live session.
    let wrong = flows::change_password_tx(
        &mut store,
        &fresh.hash(),
        &credentials,
        &new_hash,
        vec![Token::from_bytes(vec![23u8; 16])],
    );
    assert!(matches!(
        wrong,
        Err(TxError::Abort(Error::FirstFactorCredentialsWrong))
    ));
}

#[test]
fn sign_up_rerolls_colliding_user_ids() {
    let mut store = store_with_user(b"user-1", "someone@example.com", "hunter2!");
    let verification_token = Token::from_bytes(vec![61u8; 16]);
    let decision = flows::request_email_verification_tx(
        &mut store,
        "fresh@example.com",
        5,
        &verification_token,
    );
    assert!(matches!(decision, Ok(flows::SendDecision::Verification)));

    let name = match identity_engine::validation::UserName::try_from(String::from("Newcomer")) {
        Ok(n) => n,
        Err(_) => panic!("name should be within bounds"),
    };
    let password_hash = crypto::hash_with_salt("s3cretpass");
    // The first candidate collides with the stored user; the insert is
    // rerolled onto the second without redoing the rest of the work.
    let signed_up = flows::sign_up_tx(
        &mut store,
        &flows::EmailVerification::Token { token: Token::from_bytes(vec![61u8; 16]) },
        &name,
        &password_hash,
        vec![b"user-1".to_vec(), b"user-2".to_vec()],
        vec![Token::from_bytes(vec![62u8; 16])],
    );
    let (user_id, _session) = signed_up.expect("sign-up should reroll the colliding ID");
    assert_eq!(user_id, b"user-2".to_vec());
    assert_eq!(store.users.len(), 2);
}

#[test]
fn totp_disable_requires_password() {
    let mut store = store_with_user(b"user-1", "someone@example.com", "hunter2!");
    let uid = b"user-1".to_vec();
    enable_totp(&mut store, b"user-1", &[6u8; 20], &[]);
    let session = tx::create_session(&mut store, &uid).ok().unwrap();
    let token_hash = session.hash();

    let denied = flows::disable_totp_tx(&mut store, &token_hash, &password_of("wrong"));
    assert!(matches!(
        denied,
        Err(TxError::Abort(Error::UserCredentialsWrong))
    ));
    assert_eq!(store.totp.len(), 1);

    let disabled = flows::disable_totp_tx(&mut store, &token_hash, &password_of("hunter2!"));
    assert_eq!(disabled.ok(), Some(true));
    assert!(store.totp.is_empty());

    // Disabling again reports that nothing was there.
    let again = flows::disable_totp_tx(&mut store, &token_hash, &password_of("hunter2!"));
    assert_eq!(again.ok(), Some(false));
}

#[test]
fn totp_enrollment_conflicts_when_enabled() {
    let time: u64 = 1_700_000_000;
    let mut store = store_with_user(b"user-1", "someone@example.com", "hunter2!");
    let uid = b"user-1".to_vec();
    let session = tx::create_session(&mut store, &uid).ok().unwrap();
    let token_hash = session.hash();

    let secret = identity_engine::validation::TotpSecret::from_bytes(vec![8u8; 20]);
    let code = crypto::totp_generate(&vec![8u8; 20], time);
    let backup_codes = vec![String::from("AAAA2222"), String::from("BBBB3333")];

    // A wrong code is refused before anything is stored.
    let wrong = flows::enable_totp_tx(
        &mut store,
        &token_hash,
        &password_of("hunter2!"),
        &secret,
        &otp_of("000001"),
        time,
        backup_codes.clone(),
    );
    assert!(matches!(wrong, Err(TxError::Abort(Error::OtpWrong))));
    assert!(store.totp.is_empty());

    let enabled = flows::enable_totp_tx(
        &mut store,
        &token_hash,
        &password_of("hunter2!"),
        &secret,
        &otp_of(&code),
        time,
        backup_codes.clone(),
    );
    assert!(enabled.is_ok());
    assert_eq!(store.totp.len(), 1);
    // The enrollment code is recorded as last used from the start.
    assert_eq!(store.totp[0].otp_used_last.as_deref(), Some(code.as_str()));

    // Enabling again conflicts.
    let conflict = flows::enable_totp_tx(
        &mut store,
        &token_hash,
        &password_of("hunter2!"),
        &secret,
        &otp_of(&code),
        time,
        backup_codes,
    );
    assert!(matches!(conflict, Err(TxError::Abort(Error::AlreadyExists))));
}

#[test]
fn password_reset_round_trip() {
    let time: u64 = 1_700_000_000;
    let mut store = store_with_user(b"user-1", "someone@example.com", "old-password");
    let uid = b"user-1".to_vec();
    let stale_session = tx::create_session(&mut store, &uid).ok().unwrap();

    let reset_token = Token::from_bytes(vec![31u8; 16]);
    let decision = flows::password_reset_request_tx(&mut store, "someone@example.com", &reset_token);
    assert!(matches!(decision, Ok(flows::SendDecision::Verification)));
    assert_eq!(store.password_resets.len(), 1);

    // An unknown email gets the same response and stores nothing.
    let unknown = flows::password_reset_request_tx(
        &mut store,
        "nobody@example.com",
        &Token::from_bytes(vec![32u8; 16]),
    );
    assert!(matches!(unknown, Ok(flows::SendDecision::Verification)));
    assert_eq!(store.password_resets.len(), 1);

    let new_hash = crypto::hash_with_salt("brand-new-pass");
    let credentials = identity_engine::credentials::SecondFactorCredentials::Second(None);
    let reset = flows::reset_password_tx(
        &mut store,
        &Token::from_bytes(vec![31u8; 16]),
        &credentials,
        &new_hash,
        time,
        vec![Token::from_bytes(vec![33u8; 16])],
    );
    let (reset_uid, _name, _session) = reset.ok().unwrap();
    assert_eq!(reset_uid, uid);
    assert!(crypto::verify_hash("brand-new-pass", &store.users[0].password_hash));
    // The request was consumed and every old session expired.
    assert!(store.password_resets.is_empty());
    assert!(store.find_session(&stale_session.hash()).is_none());
    assert_eq!(store.count_sessions_for_user(&uid), 1);

    // Reusing the consumed token finds nothing.
    let again = flows::reset_password_tx(
        &mut store,
        &Token::from_bytes(vec![31u8; 16]),
        &credentials,
        &new_hash,
        time,
        vec![Token::from_bytes(vec![34u8; 16])],
    );
    assert!(matches!(again, Err(TxError::Abort(Error::ResourceNotFound))));
}

#[test]
fn email_change_round_trip() {
    let mut store = store_with_user(b"user-1", "someone@example.com", "hunter2!");
    let uid = b"user-1".to_vec();
    let session = tx::create_session(&mut store, &uid).ok().unwrap();
    let token_hash = session.hash();

    let credentials = identity_engine::credentials::FirstFactorCredentials::First(
        ExclusiveFirstFactorCredentials::Password { password: password_of("hunter2!") },
    );
    let change_token = Token::from_bytes(vec![41u8; 16]);
    let decision = flows::email_change_request_tx(
        &mut store,
        &token_hash,
        &credentials,
        "fresh@example.com",
        &change_token,
    );
    assert!(matches!(decision, Ok(flows::SendDecision::Verification)));

    let (current, requested) =
        flows::check_email_change_tx(&store, &Token::from_bytes(vec![41u8; 16])).ok().unwrap();
    assert_eq!(current, "someone@example.com");
    assert_eq!(requested, "fresh@example.com");

    let performed =
        flows::perform_email_change_tx(&mut store, &Token::from_bytes(vec![41u8; 16]));
    assert!(performed.is_ok());
    assert_eq!(store.users[0].email, "fresh@example.com");
    assert!(store.email_change_requests.is_empty());
}

#[test]
fn verification_codes_check_email_requests() {
    let mut store = Store::new();
    let token = Token::from_bytes(vec![51u8; 16]);
    let decision =
        flows::request_email_verification_tx(&mut store, "new@example.com", 3, &token);
    assert!(matches!(decision, Ok(flows::SendDecision::Verification)));

    let email = flows::check_email_verification_tx(&store, &Token::from_bytes(vec![51u8; 16]));
    assert_eq!(email.ok(), Some(String::from("new@example.com")));

    // A short code is issued and its salted hash stored.
    let code = crypto::generate_short_code(6);
    let code_hash = crypto::hash_with_salt(&code);
    let issued = flows::set_verification_code_tx(
        &mut store,
        &Token::from_bytes(vec![51u8; 16]),
        code_hash,
    );
    assert_eq!(issued.ok(), Some(String::from("new@example.com")));

    // Signing up with the email and that code consumes the request.
    let name = match identity_engine::validation::UserName::try_from(String::from("Newcomer")) {
        Ok(n) => n,
        Err(_) => panic!("name should be within bounds"),
    };
    let code_value = match identity_engine::validation::EmailVerificationCode::try_from(code) {
        Ok(c) => c,
        Err(_) => panic!("code should be within bounds"),
    };
    let password_hash = crypto::hash_with_salt("s3cretpass");
    let signed_up = flows::sign_up_tx(
        &mut store,
        &flows::EmailVerification::Code {
            email: String::from("new@example.com"),
            code: code_value,
        },
        &name,
        &password_hash,
        vec![b"user-7".to_vec()],
        vec![Token::from_bytes(vec![52u8; 16])],
    );
    assert!(signed_up.is_ok());
    assert!(store.unverified_users.is_empty());
}

#[test]
fn enrollment_hands_out_backup_codes() {
    let time: u64 = 1_700_000_000;
    let mut store = store_with_user(b"user-1", "someone@example.com", "hunter2!");
    let uid = b"user-1".to_vec();
    let session = tx::create_session(&mut store, &uid).ok().unwrap();
    let token_hash = session.hash();

    let secret = identity_engine::validation::TotpSecret::from_bytes(vec![13u8; 20]);
    let code = crypto::totp_generate(&vec![13u8; 20], time);
    let enrolled = flows::totp_confirm_enrollment(
        &mut store,
        &token_hash,
        &password_of("hunter2!"),
        &secret,
        &otp_of(&code),
        time,
    );
    let codes = enrolled.ok().unwrap();
    assert_eq!(codes.len(), 10);
    for c in &codes {
        assert_eq!(c.chars().count(), 8);
        assert!(c.chars().all(|ch| "0123456789ABCDEFGHIJKLMNPQRSTUVWXYZ".contains(ch)));
    }
    assert_eq!(store.totp[0].unused_backup_codes, codes);

    // One of the handed-out codes verifies exactly once.
    let backup = codes[0].clone();
    let cred = ExclusiveSecondFactorCredentials::Totp { otp: otp_of(&backup) };
    assert!(cred.verify(&mut store, &uid, time).is_ok());
    assert_eq!(store.totp[0].unused_backup_codes.len(), 9);
}
