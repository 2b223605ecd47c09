//! Opaque random identifiers: session and one-time-request tokens and user
//! IDs, drawn from a cryptographically secure random source, together with
//! their one-way lookup hashes and a hexadecimal text form.

use vstd::prelude::*;

use crate::crypto;

verus! {

/// The number of random bytes in a token (128 bits of entropy, enough that
/// guessing is infeasible).
pub const TOKEN_LEN: usize = 16;

/// The number of random bytes in a newly generated user ID.
pub const USER_ID_LEN: usize = 8;

/// The hexadecimal digit (lowercase) for a nibble value.
pub open spec fn hex_char(n: u8) -> char {
    "0123456789abcdef"@[n as int]
}

/// The lowercase hexadecimal rendering of a byte sequence, two digits per
/// byte, most significant nibble first.
pub open spec fn hex_of(bytes: Seq<u8>) -> Seq<char>
    decreases bytes.len(),
{
    if bytes.len() == 0 {
        Seq::empty()
    } else {
        hex_of(bytes.drop_last()) + seq![
            hex_char(bytes.last() / 16),
            hex_char(bytes.last() % 16),
        ]
    }
}

/// Whether a character is a lowercase hexadecimal digit.
pub open spec fn is_hex_digit(c: char) -> bool {
    ('0' <= c && c <= '9') || ('a' <= c && c <= 'f')
}

/// The nibble value of a lowercase hexadecimal digit.
pub open spec fn nibble_of(c: char) -> u8 {
    if '0' <= c && c <= '9' {
        (c as u8 - '0' as u8) as u8
    } else {
        (c as u8 - 'a' as u8 + 10) as u8
    }
}

/// Whether a character sequence is the hexadecimal rendering of `n` bytes:
/// `2 * n` lowercase hexadecimal digits.
pub open spec fn is_hex_seq(s: Seq<char>, n: nat) -> bool {
    s.len() == 2 * n && forall|i: int| 0 <= i < s.len() ==> is_hex_digit(#[trigger] s[i])
}

/// Every character of a hexadecimal rendering is a hexadecimal digit, and the
/// rendering is twice as long as the bytes.
pub proof fn lemma_hex_of_is_hex_seq(bytes: Seq<u8>)
    ensures
        is_hex_seq(hex_of(bytes), bytes.len()),
    decreases bytes.len(),
{
    reveal_strlit("0123456789abcdef");
    if bytes.len() > 0 {
        lemma_hex_of_is_hex_seq(bytes.drop_last());
    }
}

/// Decoding inverts encoding nibble by nibble.
proof fn lemma_nibble_of_hex_char(n: u8)
    requires
        n < 16,
    ensures
        is_hex_digit(hex_char(n)),
        nibble_of(hex_char(n)) == n,
{
    reveal_strlit("0123456789abcdef");
}

/// The hexadecimal rendering determines the bytes: two sequences with the
/// same rendering are equal.
pub proof fn lemma_hex_of_injective(a: Seq<u8>, b: Seq<u8>)
    requires
        hex_of(a) == hex_of(b),
    ensures
        a == b,
    decreases a.len(),
{
    lemma_hex_of_is_hex_seq(a);
    lemma_hex_of_is_hex_seq(b);
    if a.len() > 0 {
        let ha = hex_of(a);
        let hb = hex_of(b);
        assert(hex_of(a.drop_last()) =~= ha.subrange(0, ha.len() - 2));
        assert(hex_of(b.drop_last()) =~= hb.subrange(0, hb.len() - 2));
        lemma_hex_of_injective(a.drop_last(), b.drop_last());
        lemma_nibble_of_hex_char(a.last() / 16);
        lemma_nibble_of_hex_char(a.last() % 16);
        lemma_nibble_of_hex_char(b.last() / 16);
        lemma_nibble_of_hex_char(b.last() % 16);
        assert(ha[ha.len() - 2] == hex_char(a.last() / 16));
        assert(ha[ha.len() - 1] == hex_char(a.last() % 16));
        assert(hb[hb.len() - 2] == hex_char(b.last() / 16));
        assert(hb[hb.len() - 1] == hex_char(b.last() % 16));
        assert(a.last() / 16 == b.last() / 16 && a.last() % 16 == b.last() % 16);
        assert(a.last() == b.last());
        assert(a =~= a.drop_last().push(a.last()));
        assert(b =~= b.drop_last().push(b.last()));
    } else {
        assert(a =~= b);
    }
}

/// Renders bytes as lowercase hexadecimal text.
pub fn bytes_to_hex(bytes: &Vec<u8>) -> (r: String)
    ensures
        r@ == hex_of(bytes@),
{
    let digits = "0123456789abcdef";
    proof {
        reveal_strlit("0123456789abcdef");
    }
    let mut out = String::new();
    let mut i: usize = 0;
    while i < bytes.len()
        invariant
            0 <= i <= bytes@.len(),
            digits@ == "0123456789abcdef"@,
            digits@.len() == 16,
            out@ == hex_of(bytes@.subrange(0, i as int)),
        decreases bytes@.len() - i,
    {
        let b = bytes[i];
        let hi = (b / 16) as usize;
        let lo = (b % 16) as usize;
        let ghost prefix = bytes@.subrange(0, i as int);
        out.append(digits.substring_char(hi, hi + 1));
        out.append(digits.substring_char(lo, lo + 1));
        proof {
            let next = bytes@.subrange(0, i + 1);
            assert(next.drop_last() =~= prefix);
            assert(digits@.subrange(hi as int, hi as int + 1) =~= seq![hex_char(b / 16)]);
            assert(digits@.subrange(lo as int, lo as int + 1) =~= seq![hex_char(b % 16)]);
            assert(out@ =~= hex_of(next));
        }
        i = i + 1;
    }
    proof {
        assert(bytes@.subrange(0, bytes@.len() as int) =~= bytes@);
    }
    out
}

/// Parses lowercase hexadecimal text that must render exactly `n` bytes.
/// Returns the bytes exactly when the text is `2 * n` lowercase hexadecimal
/// digits.
pub fn bytes_from_hex(s: &str, n: usize) -> (r: Option<Vec<u8>>)
    requires
        n <= usize::MAX / 2,
    ensures
        match r {
            Some(bytes) => is_hex_seq(s@, n as nat) && bytes@.len() == n && hex_of(bytes@) == s@,
            None => !is_hex_seq(s@, n as nat),
        },
{
    let len = s.unicode_len();
    if len != 2 * n {
        return None;
    }
    let mut out: Vec<u8> = Vec::new();
    let mut i: usize = 0;
    while i < n
        invariant
            0 <= i <= n,
            n <= usize::MAX / 2,
            s@.len() == 2 * n,
            out@.len() == i,
            forall|j: int| 0 <= j < 2 * i ==> is_hex_digit(#[trigger] s@[j]),
            hex_of(out@) =~= s@.subrange(0, 2 * i),
        decreases n - i,
    {
        let c0 = s.get_char(2 * i);
        let c1 = s.get_char(2 * i + 1);
        let hi = match hex_val(c0) {
            Some(v) => v,
            None => {
                proof {
                    assert(!is_hex_digit(s@[2 * i as int]));
                }
                return None;
            },
        };
        let lo = match hex_val(c1) {
            Some(v) => v,
            None => {
                proof {
                    assert(!is_hex_digit(s@[2 * i as int + 1]));
                }
                return None;
            },
        };
        let b: u8 = hi * 16 + lo;
        let ghost prev = out@;
        out.push(b);
        proof {
            lemma_nibble_of_hex_char(b / 16);
            lemma_nibble_of_hex_char(b % 16);
            assert(b / 16 == hi && b % 16 == lo);
            assert(hex_char(hi) == s@[2 * i as int]) by {
                lemma_hex_char_of_nibble(s@[2 * i as int]);
            }
            assert(hex_char(lo) == s@[2 * i as int + 1]) by {
                lemma_hex_char_of_nibble(s@[2 * i as int + 1]);
            }
            assert(out@.drop_last() =~= prev);
            assert(hex_of(out@) =~= s@.subrange(0, 2 * (i + 1)));
        }
        i = i + 1;
    }
    proof {
        assert(s@.subrange(0, 2 * n as int) =~= s@);
    }
    Some(out)
}

/// Encoding inverts decoding digit by digit.
proof fn lemma_hex_char_of_nibble(c: char)
    requires
        is_hex_digit(c),
    ensures
        nibble_of(c) < 16,
        hex_char(nibble_of(c)) == c,
{
    reveal_strlit("0123456789abcdef");
}

/// The nibble value of a hexadecimal digit character, if it is one.
fn hex_val(c: char) -> (r: Option<u8>)
    ensures
        match r {
            Some(v) => is_hex_digit(c) && v < 16 && v == nibble_of(c),
            None => !is_hex_digit(c),
        },
{
    if '0' <= c && c <= '9' {
        Some(c as u8 - '0' as u8)
    } else if 'a' <= c && c <= 'f' {
        Some(c as u8 - 'a' as u8 + 10)
    } else {
        None
    }
}

/// A round trip: rendering bytes as hexadecimal text and parsing it back
/// yields the same bytes.
pub proof fn lemma_hex_round_trip(bytes: Seq<u8>, parsed: Seq<u8>)
    requires
        hex_of(parsed) == hex_of(bytes),
    ensures
        parsed == bytes,
{
    lemma_hex_of_injective(parsed, bytes);
}

/// A session or one-time-request token: an opaque value with enough entropy
/// that guessing is infeasible. The plaintext token is held only by the
/// client; the store keeps its unsalted hash.
pub struct Token {
    bytes: Vec<u8>,
}

impl View for Token {
    type V = Seq<u8>;

    closed spec fn view(&self) -> Seq<u8> {
        self.bytes@
    }
}

impl Token {
    /// Whether the token has its full entropy.
    pub open spec fn wf(&self) -> bool {
        self@.len() == TOKEN_LEN
    }

    /// Draws a fresh token from the secure random source.
    pub fn generate() -> (r: Token)
        ensures
            r.wf(),
    {
        Token { bytes: crypto::generate_random_bytes(TOKEN_LEN) }
    }

    /// Builds a token from its raw bytes.
    pub fn from_bytes(bytes: Vec<u8>) -> (r: Token)
        ensures
            r@ == bytes@,
    {
        Token { bytes }
    }

    /// The token's one-way hash, used as its lookup key in the store.
    pub fn hash(&self) -> (r: Vec<u8>)
        ensures
            r@ == crypto::sha256_of(self@),
            r@.len() == 32,
    {
        crypto::hash_without_salt(&self.bytes)
    }

    /// Replaces the token's value in place, used when a uniqueness constraint
    /// collides.
    pub fn reroll(&mut self)
        ensures
            final(self).wf(),
    {
        self.bytes = crypto::generate_random_bytes(TOKEN_LEN);
    }

    /// The token's hexadecimal text form, handed to clients.
    pub fn to_hex(&self) -> (r: String)
        ensures
            r@ == hex_of(self@),
    {
        bytes_to_hex(&self.bytes)
    }

    /// Parses a token from its hexadecimal text form. Returns the token
    /// exactly when the text is 32 lowercase hexadecimal digits.
    pub fn from_hex(s: &str) -> (r: Option<Token>)
        ensures
            match r {
                Some(t) => is_hex_seq(s@, TOKEN_LEN as nat) && t.wf() && hex_of(t@) == s@,
                None => !is_hex_seq(s@, TOKEN_LEN as nat),
            },
    {
        match bytes_from_hex(s, TOKEN_LEN) {
            Some(bytes) => Some(Token { bytes }),
            None => None,
        }
    }
}

/// Draws a fresh random user ID from the secure random source. Existing user
/// IDs may have other lengths; newly created users get this one.
pub fn generate_user_id() -> (r: Vec<u8>)
    ensures
        r@.len() == USER_ID_LEN,
{
    crypto::generate_random_bytes(USER_ID_LEN)
}

/// Generates a fresh token together with its one-way lookup hash: the pair
/// a caller stores (the hash) and hands to the client (the token).
pub fn generate_token() -> (r: (Token, Vec<u8>))
    ensures
        r.0.wf(),
        r.1@ == crypto::sha256_of(r.0@),
        r.1@.len() == 32,
{
    let token = Token::generate();
    let hash = token.hash();
    (token, hash)
}

} // verus!
