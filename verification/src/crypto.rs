//! Cryptographic primitives: unsalted SHA-256 hashing for high-entropy
//! lookup keys, salted Argon2 password hashing, time-based one-time-password
//! computation, and generation of random bytes and short human-enterable
//! codes.
//!
//! The outside calls stand behind trusted wrappers; everything around them is
//! verified.

use vstd::prelude::*;

use argon2::password_hash::{PasswordHasher, PasswordVerifier};
use rand::{Rng, RngExt};

verus! {

/// The time step, in seconds, of a time-based one-time password.
pub const TOTP_STEP: u64 = 30;

/// The number of digits of a time-based one-time password.
pub const TOTP_DIGITS: u32 = 6;

/// The SHA-256 digest of a byte sequence.
pub uninterp spec fn sha256_of(bytes: Seq<u8>) -> Seq<u8>;

/// Whether Argon2 verification of `password` against the PHC-format string
/// `hash_phc` succeeds. Verification of a structurally invalid string fails.
pub uninterp spec fn argon2_verifies(password: Seq<char>, hash_phc: Seq<char>) -> bool;

/// The time-based one-time password for the given step width, digit count,
/// shared secret and time, as specified by RFC 6238 with HMAC-SHA-1.
pub uninterp spec fn totp_code(step: u64, digits: u32, secret: Seq<u8>, time: u64) -> Seq<char>;

/// Relies on ring's `digest::digest` with `SHA256`: the digest is a function
/// of the input bytes alone and is 32 bytes long.
#[verifier::external_body]
fn sha256_digest(bytes: &Vec<u8>) -> (r: Vec<u8>)
    ensures
        r@ == sha256_of(bytes@),
        r@.len() == 32,
{
    ring::digest::digest(&ring::digest::SHA256, bytes.as_slice()).as_ref().to_vec()
}

/// Relies on argon2's `PasswordHasher::hash_password`, which salts with a
/// fresh random salt and hashes with Argon2; whatever salt was drawn, the
/// returned PHC string verifies against the same password (and panics only on
/// failure of the system's secure random source, which is fatal).
#[verifier::external_body]
fn argon2_hash(password: &str) -> (r: String)
    ensures
        argon2_verifies(password@, r@),
{
    argon2::Argon2::default()
        .hash_password(password.as_bytes())
        .expect("password hashing should be infallible")
        .to_string()
}

/// Relies on argon2's `PasswordVerifier::<str>::verify_password`, which
/// parses the PHC string (failing verification if it is invalid) and checks
/// the password against it; the outcome is a function of the two arguments.
#[verifier::external_body]
fn argon2_verify(password: &str, hash_phc: &str) -> (r: bool)
    ensures
        r == argon2_verifies(password@, hash_phc@),
{
    PasswordVerifier::<str>::verify_password(
        &argon2::Argon2::default(),
        password.as_bytes(),
        hash_phc,
    ).is_ok()
}

/// Relies on totp-lite's `totp_custom::<Sha1>`: the code is a function of the
/// arguments alone and has exactly `digits` characters (the call divides the
/// time by the step and widens ten to the `digits`-th power, so a zero step
/// or more than 19 digits would panic and is excluded here).
#[verifier::external_body]
fn totp_custom_sha1(step: u64, digits: u32, secret: &Vec<u8>, time: u64) -> (r: String)
    requires
        step > 0,
        digits <= 19,
    ensures
        r@ == totp_code(step, digits, secret@, time),
        r@.len() == digits,
{
    totp_lite::totp_custom::<totp_lite::Sha1>(step, digits, secret.as_slice(), time)
}

/// Relies on rand's `Rng::fill_bytes` on the thread's cryptographically
/// secure generator; nothing is assumed of the values, only the length.
#[verifier::external_body]
fn random_bytes(n: usize) -> (r: Vec<u8>)
    ensures
        r@.len() == n,
{
    let mut v = vec![0u8; n];
    rand::rng().fill_bytes(&mut v);
    v
}

/// Relies on rand's `RngExt::random_range`, which returns a uniformly drawn
/// value within the given (nonempty) range.
#[verifier::external_body]
fn random_below(bound: usize) -> (r: usize)
    requires
        bound > 0,
    ensures
        r < bound,
{
    rand::rng().random_range(0..bound)
}

/// Compares two string slices character by character.
pub fn str_eq(a: &str, b: &str) -> (r: bool)
    ensures
        r == (a@ == b@),
{
    let n = a.unicode_len();
    let m = b.unicode_len();
    if n != m {
        return false;
    }
    let mut i: usize = 0;
    while i < n
        invariant
            0 <= i <= n,
            n == a@.len(),
            n == b@.len(),
            forall|j: int| 0 <= j < i ==> a@[j] == b@[j],
        decreases n - i,
    {
        if a.get_char(i) != b.get_char(i) {
            return false;
        }
        i = i + 1;
    }
    proof {
        assert(a@ =~= b@);
    }
    true
}

/// Compares two byte vectors element by element.
pub fn bytes_eq(a: &Vec<u8>, b: &Vec<u8>) -> (r: bool)
    ensures
        r == (a@ == b@),
{
    if a.len() != b.len() {
        return false;
    }
    let mut i: usize = 0;
    while i < a.len()
        invariant
            0 <= i <= a@.len(),
            a@.len() == b@.len(),
            forall|j: int| 0 <= j < i ==> a@[j] == b@[j],
        decreases a@.len() - i,
    {
        if a[i] != b[i] {
            return false;
        }
        i = i + 1;
    }
    proof {
        assert(a@ =~= b@);
    }
    true
}

/// Copies a byte vector.
pub fn clone_bytes(a: &Vec<u8>) -> (r: Vec<u8>)
    ensures
        r@ == a@,
{
    let mut out: Vec<u8> = Vec::new();
    let mut i: usize = 0;
    while i < a.len()
        invariant
            0 <= i <= a@.len(),
            out@ =~= a@.subrange(0, i as int),
        decreases a@.len() - i,
    {
        out.push(a[i]);
        i = i + 1;
    }
    proof {
        assert(out@ =~= a@);
    }
    out
}

/// Hashes the input using SHA-256.
///
/// Salt is necessary for secrets that may be short or guessable, so
/// [`hash_with_salt`] serves those instead. Unsalted hashes of high-entropy
/// tokens can be indexed for exact-match lookup.
pub fn hash_without_salt(bytes: &Vec<u8>) -> (r: Vec<u8>)
    ensures
        r@ == sha256_of(bytes@),
        r@.len() == 32,
{
    sha256_digest(bytes)
}

/// Salts and hashes the input using Argon2, returning a hash in PHC string
/// format. Each call draws a fresh random salt, so two calls on the same
/// input generally differ; both verify against the input.
pub fn hash_with_salt(password: &str) -> (r: String)
    ensures
        argon2_verifies(password@, r@),
{
    argon2_hash(password)
}

/// Checks if the input matches the Argon2 hash specified in PHC string format
/// (as outputted by [`hash_with_salt`]). An invalid hash string fails
/// verification rather than erring, so storage corruption is not
/// distinguishable from a wrong password.
pub fn verify_hash(password: &str, hash_phc: &str) -> (r: bool)
    ensures
        r == argon2_verifies(password@, hash_phc@),
{
    argon2_verify(password, hash_phc)
}

/// Whether a submitted one-time password is accepted for a secret at a time:
/// it must equal the code of the current 30-second step or of the immediately
/// preceding one (tolerating up to one step of clock skew).
pub open spec fn totp_accepted(secret: Seq<u8>, otp: Seq<char>, time: u64) -> bool {
    ||| otp == totp_code(TOTP_STEP, TOTP_DIGITS, secret, time)
    ||| (time >= TOTP_STEP && otp == totp_code(
        TOTP_STEP,
        TOTP_DIGITS,
        secret,
        (time - TOTP_STEP) as u64,
    ))
}

/// Computes the standard 30-second-step, 6-digit TOTP code for a secret at a
/// time.
pub fn totp_generate(secret: &Vec<u8>, time: u64) -> (r: String)
    ensures
        r@ == totp_code(TOTP_STEP, TOTP_DIGITS, secret@, time),
        r@.len() == TOTP_DIGITS,
{
    totp_custom_sha1(TOTP_STEP, TOTP_DIGITS, secret, time)
}

/// Checks if a TOTP code matches a TOTP secret at the given time, accepting
/// the current time step and the immediately preceding one.
pub fn verify_totp(otp: &str, secret: &Vec<u8>, time: u64) -> (r: bool)
    ensures
        r == totp_accepted(secret@, otp@, time),
{
    let current = totp_custom_sha1(TOTP_STEP, TOTP_DIGITS, secret, time);
    if str_eq(otp, current.as_str()) {
        return true;
    }
    if time >= TOTP_STEP {
        let previous = totp_custom_sha1(TOTP_STEP, TOTP_DIGITS, secret, time - TOTP_STEP);
        if str_eq(otp, previous.as_str()) {
            return true;
        }
    }
    false
}

/// Generates `n` cryptographically secure pseudorandom bytes.
pub fn generate_random_bytes(n: usize) -> (r: Vec<u8>)
    ensures
        r@.len() == n,
{
    random_bytes(n)
}

/// Whether every character of a string comes from the short-code alphabet:
/// digits and uppercase letters, with `O` excluded because it is often
/// mistaken for `0`.
pub open spec fn short_code_chars(s: Seq<char>) -> bool {
    forall|i: int|
        0 <= i < s.len() ==> "0123456789ABCDEFGHIJKLMNPQRSTUVWXYZ"@.contains(#[trigger] s[i])
}

/// Generates a cryptographically secure pseudorandom string that should be
/// short and easy to type, drawn from the short-code alphabet.
pub fn generate_short_code(length: usize) -> (r: String)
    ensures
        r@.len() == length,
        short_code_chars(r@),
{
    let alphabet = "0123456789ABCDEFGHIJKLMNPQRSTUVWXYZ";
    proof {
        reveal_strlit("0123456789ABCDEFGHIJKLMNPQRSTUVWXYZ");
    }
    let mut out = String::new();
    let mut i: usize = 0;
    while i < length
        invariant
            0 <= i <= length,
            alphabet@ == "0123456789ABCDEFGHIJKLMNPQRSTUVWXYZ"@,
            alphabet@.len() == 35,
            out@.len() == i,
            forall|j: int|
                0 <= j < out@.len() ==> "0123456789ABCDEFGHIJKLMNPQRSTUVWXYZ"@.contains(
                    #[trigger] out@[j],
                ),
        decreases length - i,
    {
        let k = random_below(35);
        let ghost old_out = out@;
        out.append(alphabet.substring_char(k, k + 1));
        proof {
            assert(alphabet@.subrange(k as int, k as int + 1) =~= seq![alphabet@[k as int]]);
            assert(out@ =~= old_out.push(alphabet@[k as int]));
            assert(alphabet@.contains(alphabet@[k as int]));
        }
        i = i + 1;
    }
    out
}

} // verus!
