//! The cryptographic primitives, identifiers and validated value types.

use identity_engine::authority_from_origin;
use identity_engine::crypto;
use identity_engine::errors::{Error, TxError};
use identity_engine::flows::SessionQuery;
use identity_engine::token::{bytes_from_hex, bytes_to_hex, Token};
use identity_engine::validation::{
    BoundedString, BoundedStringError, TotpSecret, TotpSecretError, True,
};

#[test]
fn password_hash_round_trip() {
    let hash = crypto::hash_with_salt("correct horse battery staple");
    assert!(crypto::verify_hash("correct horse battery staple", &hash));
    assert!(!crypto::verify_hash("incorrect horse battery staple", &hash));
    // A structurally invalid stored hash fails verification rather than
    // erring, indistinguishably from a wrong password.
    assert!(!crypto::verify_hash("anything", "not-a-phc-string"));
    // Salting makes repeated hashes of one input differ; both verify.
    let second = crypto::hash_with_salt("correct horse battery staple");
    assert_ne!(hash, second);
    assert!(crypto::verify_hash("correct horse battery staple", &second));
}

#[test]
fn unsalted_hash_is_a_digest() {
    let token = Token::from_bytes(vec![1, 2, 3, 4]);
    let hash = token.hash();
    // SHA-256 of [1, 2, 3, 4].
    assert_eq!(
        bytes_to_hex(&hash),
        "9f64a747e1b97f131fabb6b447296c9b6f0201e79fb3c5356e6c77e89b6a806a"
    );
    assert_eq!(hash.len(), 32);
}

#[test]
fn totp_codes_match_reference_values() {
    // RFC 6238's SHA-1 test secret, truncated to 6 digits at its test times.
    let secret = b"12345678901234567890".to_vec();
    assert_eq!(crypto::totp_generate(&secret, 59), "287082");
    assert_eq!(crypto::totp_generate(&secret, 1_111_111_109), "081804");
    assert!(crypto::verify_totp("287082", &secret, 59));
    // The previous step's code is tolerated for clock skew...
    assert!(crypto::verify_totp("287082", &secret, 89));
    // ...but not one from two steps back.
    assert!(!crypto::verify_totp("287082", &secret, 119));
    assert!(!crypto::verify_totp("123456", &secret, 59));
}

#[test]
fn short_codes_use_the_unambiguous_alphabet() {
    let code = crypto::generate_short_code(8);
    assert_eq!(code.chars().count(), 8);
    for c in code.chars() {
        assert!("0123456789ABCDEFGHIJKLMNPQRSTUVWXYZ".contains(c));
        assert_ne!(c, 'O');
    }
    assert_eq!(crypto::generate_short_code(0), "");
}

#[test]
fn token_hex_round_trip() {
    let token = Token::generate();
    let hex = token.to_hex();
    assert_eq!(hex.len(), 32);
    let parsed = Token::from_hex(&hex).expect("hex form should parse back");
    assert_eq!(parsed.to_hex(), hex);

    assert!(Token::from_hex("").is_none());
    assert!(Token::from_hex("zz").is_none());
    // Uppercase digits are not the canonical form.
    assert!(Token::from_hex("AAAAAAAAAAAAAAAAAAAAAAAAAAAAAAAA").is_none());

    let bytes = bytes_from_hex("00ff10", 3).expect("even hex should parse");
    assert_eq!(bytes, vec![0x00, 0xff, 0x10]);
    assert_eq!(bytes_to_hex(&bytes), "00ff10");
    assert!(bytes_from_hex("00ff1", 3).is_none());
}

#[test]
fn bounded_string_checks_lengths() {
    type Short = BoundedString<2, 4>;
    assert!(matches!(
        Short::try_from(String::from("a")),
        Err(BoundedStringError::TooShort(1))
    ));
    assert!(matches!(
        Short::try_from(String::from("abcde")),
        Err(BoundedStringError::TooLong(5))
    ));
    let ok = Short::try_from(String::from("abcd")).ok().unwrap();
    assert_eq!(ok.as_str(), "abcd");
    assert_eq!(ok.into_inner(), "abcd");
}

#[test]
fn true_accepts_only_true() {
    assert!(True::try_from(true).is_ok());
    assert!(True::try_from(false).is_err());
}

#[test]
fn totp_secret_decodes_base32() {
    // 32 Base32 characters decode to the 20 required bytes.
    let ok = TotpSecret::from_str("GEZDGNBVGY3TQOJQGEZDGNBVGY3TQOJQ");
    let secret = match ok {
        Ok(secret) => secret,
        Err(_) => panic!("a valid encoding should decode"),
    };
    assert_eq!(secret.as_bytes(), &b"12345678901234567890".to_vec());

    assert!(matches!(
        TotpSecret::from_str("GEZDGNBV"),
        Err(TotpSecretError::EncodedLength(8))
    ));
    assert!(matches!(
        TotpSecret::from_str("!!!!!!!!!!!!!!!!!!!!!!!!!!!!!!!!"),
        Err(TotpSecretError::Base32)
    ));
}

#[test]
fn error_codes_and_statuses() {
    assert_eq!(Error::AuthFailed.code(), "AUTH_FAILED");
    assert_eq!(Error::AuthFailed.status(), 401);
    assert_eq!(Error::UserCredentialsWrong.code(), "USER_CREDENTIALS_WRONG");
    assert_eq!(Error::UserCredentialsWrong.status(), 403);
    assert_eq!(Error::ResourceNotFound.code(), "RESOURCE_NOT_FOUND");
    assert_eq!(Error::ResourceNotFound.status(), 404);
    assert_eq!(Error::AlreadyExists.code(), "ALREADY_EXISTS");
    assert_eq!(Error::AlreadyExists.status(), 409);
    assert_eq!(Error::Internal.code(), "INTERNAL");
    assert_eq!(Error::Internal.status(), 500);
    assert_eq!(
        Error::SecondFactorCredentialsWrong.code(),
        "SECOND_FACTOR_CREDENTIALS_WRONG"
    );
}

#[test]
fn store_errors_classify_into_transaction_control() {
    // The store's serialization-failure SQLSTATE asks for a retry; any
    // other store error aborts with an opaque internal error.
    let retry = identity_engine::errors::classify_store_error(&Some(String::from("40001")));
    assert!(matches!(retry, TxError::Retry));
    let abort = identity_engine::errors::classify_store_error(&Some(String::from("23505")));
    assert!(matches!(abort, TxError::Abort(Error::Internal)));
    let opaque = identity_engine::errors::classify_store_error(&None);
    assert!(matches!(opaque, TxError::Abort(Error::Internal)));
}

#[test]
fn session_queries_parse() {
    assert!(matches!(
        SessionQuery::from_str("$current"),
        Some(SessionQuery::Current)
    ));
    let hex = "00112233445566778899aabbccddeeff00112233445566778899aabbccddeeff";
    match SessionQuery::from_str(hex) {
        Some(SessionQuery::Id(id)) => assert_eq!(id.len(), 32),
        _ => panic!("a 64-digit hex session ID should parse"),
    }
    assert!(SessionQuery::from_str("nonsense").is_none());
}

#[test]
fn authority_extraction() {
    assert_eq!(authority_from_origin("https://example.com"), "example.com");
    assert_eq!(authority_from_origin("http://localhost:8080"), "localhost:8080");
}
