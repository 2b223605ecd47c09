//! Validated request-scoped value types: length-bounded strings, a
//! must-be-true marker, and the Base32-decoded TOTP secret.

use vstd::prelude::*;

verus! {

/// A [`String`] newtype that guarantees its length, in characters, is
/// within a range.
pub struct BoundedString<const MIN: usize, const MAX: usize> {
    inner: String,
}

/// An error constructing a [`BoundedString`].
pub enum BoundedStringError {
    /// The length was less than the bound's minimum.
    TooShort(usize),
    /// The length was greater than the bound's maximum.
    TooLong(usize),
}

impl<const MIN: usize, const MAX: usize> View for BoundedString<MIN, MAX> {
    type V = Seq<char>;

    closed spec fn view(&self) -> Seq<char> {
        self.inner@
    }
}

impl<const MIN: usize, const MAX: usize> BoundedString<MIN, MAX> {
    /// The length bound the type guarantees.
    pub open spec fn wf(&self) -> bool {
        MIN <= self@.len() <= MAX
    }

    /// Checks the length bound and wraps the string.
    pub fn try_from(string: String) -> (r: Result<Self, BoundedStringError>)
        ensures
            match r {
                Ok(b) => b@ == string@ && b.wf(),
                Err(BoundedStringError::TooShort(l)) => l == string@.len() && l < MIN,
                Err(BoundedStringError::TooLong(l)) => l == string@.len() && l > MAX,
            },
    {
        let len = string.as_str().unicode_len();
        if len < MIN {
            Err(BoundedStringError::TooShort(len))
        } else if len > MAX {
            Err(BoundedStringError::TooLong(len))
        } else {
            Ok(BoundedString { inner: string })
        }
    }

    /// Consumes the [`BoundedString`], returning the inner [`String`].
    pub fn into_inner(self) -> (r: String)
        ensures
            r@ == self@,
    {
        self.inner
    }

    /// Borrows the inner string.
    pub fn as_str(&self) -> (r: &str)
        ensures
            r@ == self@,
    {
        self.inner.as_str()
    }
}

/// A user's name.
pub type UserName = BoundedString<1, 64>;

/// A user's new password in plain text.
pub type NewUserPassword = BoundedString<8, 256>;

/// A user's password in plain text.
pub type UserPassword = BoundedString<0, 256>;

/// A user's TOTP or backup authentication code.
pub type Otp = BoundedString<6, 8>;

/// An unverified email's verification code.
pub type EmailVerificationCode = BoundedString<6, 6>;

/// A CAPTCHA token.
pub type CaptchaToken = BoundedString<1, 2048>;

/// A [`bool`] newtype that guarantees the Boolean is `true`.
pub struct True;

/// An error constructing a [`True`].
pub struct TrueError;

impl True {
    /// Accepts only `true`.
    pub fn try_from(value: bool) -> (r: Result<True, TrueError>)
        ensures
            r is Ok <==> value,
    {
        if !value {
            return Err(TrueError);
        }
        Ok(True)
    }
}

/// The bytes that RFC-4648 Base32 decoding (without padding) yields for a
/// string, if it is valid Base32.
pub uninterp spec fn base32_decoded(s: Seq<char>) -> Option<Seq<u8>>;

/// Relies on base32's `decode` with the RFC 4648 alphabet, no padding: the
/// result is a function of the input alone.
#[verifier::external_body]
fn base32_decode_rfc4648(s: &str) -> (r: Option<Vec<u8>>)
    ensures
        match r {
            Some(bytes) => base32_decoded(s@) matches Some(d) && d == bytes@,
            None => base32_decoded(s@) is None,
        },
{
    base32::decode(base32::Alphabet::Rfc4648 { padding: false }, s)
}

/// The number of Base32 characters that encode a TOTP secret.
pub const TOTP_SECRET_ENCODED_LENGTH: usize = 32;

/// The number of bytes of a TOTP secret: 160 bits as RFC 4226 recommends.
pub const TOTP_SECRET_LENGTH: usize = 20;

/// A TOTP secret decoded from RFC-4648-compliant Base32.
pub struct TotpSecret {
    bytes: Vec<u8>,
}

/// An error constructing a [`TotpSecret`].
pub enum TotpSecretError {
    /// The Base32 encoding was invalid.
    Base32,
    /// The Base32 string length is incorrect.
    EncodedLength(usize),
    /// The decoded number of bytes is incorrect.
    DecodedLength(usize),
}

impl View for TotpSecret {
    type V = Seq<u8>;

    closed spec fn view(&self) -> Seq<u8> {
        self.bytes@
    }
}

impl TotpSecret {
    /// The secret has its full 160 bits.
    pub open spec fn wf(&self) -> bool {
        self@.len() == TOTP_SECRET_LENGTH
    }

    /// Decodes a TOTP secret from Base32 text. The encoded length is checked
    /// preemptively to avoid the cost of decoding very long inputs.
    pub fn from_str(s: &str) -> (r: Result<TotpSecret, TotpSecretError>)
        ensures
            match r {
                Ok(sec) => {
                    &&& s@.len() == TOTP_SECRET_ENCODED_LENGTH
                    &&& base32_decoded(s@) matches Some(d) && d == sec@
                    &&& sec.wf()
                },
                Err(TotpSecretError::EncodedLength(l)) => l == s@.len() && l
                    != TOTP_SECRET_ENCODED_LENGTH,
                Err(TotpSecretError::Base32) => s@.len() == TOTP_SECRET_ENCODED_LENGTH
                    && base32_decoded(s@) is None,
                Err(TotpSecretError::DecodedLength(l)) => {
                    &&& s@.len() == TOTP_SECRET_ENCODED_LENGTH
                    &&& base32_decoded(s@) matches Some(d) && d.len() == l
                    &&& l != TOTP_SECRET_LENGTH
                },
            },
    {
        let len = s.unicode_len();
        if len != TOTP_SECRET_ENCODED_LENGTH {
            return Err(TotpSecretError::EncodedLength(len));
        }
        let bytes = match base32_decode_rfc4648(s) {
            Some(bytes) => bytes,
            None => {
                return Err(TotpSecretError::Base32);
            },
        };
        if bytes.len() != TOTP_SECRET_LENGTH {
            return Err(TotpSecretError::DecodedLength(bytes.len()));
        }
        Ok(TotpSecret { bytes })
    }

    /// Builds a secret from its raw bytes.
    pub fn from_bytes(bytes: Vec<u8>) -> (r: TotpSecret)
        ensures
            r@ == bytes@,
    {
        TotpSecret { bytes }
    }

    /// Borrows the secret's bytes.
    pub fn as_bytes(&self) -> (r: &Vec<u8>)
        ensures
            r@ == self@,
    {
        &self.bytes
    }
}

/// Generates a fresh random TOTP enrollment secret of the recommended 160
/// bits.
pub fn totp_generate_enrollment_secret() -> (r: TotpSecret)
    ensures
        r.wf(),
{
    TotpSecret { bytes: crate::crypto::generate_random_bytes(TOTP_SECRET_LENGTH) }
}

} // verus!
