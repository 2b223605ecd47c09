//! User-inputted email addresses: parsing, validation and normalization.
//!
//! An address must use a domain name (never an IP address); the domain is
//! normalized through IDNA processing and lowercasing, and the user portion
//! by removing unnecessary quotes and escapes, so that no two forms of the
//! same address can ever name different accounts. The final say on what is
//! a valid address belongs to the mail library's parser, behind a trusted
//! wrapper.

use vstd::prelude::*;

use idna::uts46;

verus! {

/// The maximum length of a user email. As per RFC 3696 erratum 1690, the
/// theoretical maximum is 254.
pub const EMAIL_MAX_LENGTH: usize = 254;

/// What IDNA UTS-46 user-interface processing (URL ASCII deny list, hyphens
/// allowed, Unicode output) makes of a domain: the mapped domain and
/// whether the domain was valid.
pub uninterp spec fn idna_mapped(domain: Seq<char>) -> (Seq<char>, bool);

/// The Unicode lowercase mapping of a string; the result depends on the
/// characters alone.
pub uninterp spec fn lower_of(s: Seq<char>) -> Seq<char>;

/// Whether the mail library accepts this user and domain pair as an email
/// address.
pub uninterp spec fn smtp_address_ok(user: Seq<char>, domain: Seq<char>) -> bool;

/// Relies on idna's `Uts46::to_user_interface` with `AsciiDenyList::URL`,
/// `Hyphens::Allow` and Unicode output unconditionally requested: the
/// mapped domain and the validity verdict are functions of the domain
/// alone.
#[verifier::external_body]
fn idna_domain(domain: &str) -> (r: (String, bool))
    ensures
        r.0@ == idna_mapped(domain@).0,
        r.1 == idna_mapped(domain@).1,
{
    let (mapped, result) = uts46::Uts46::new().to_user_interface(
        domain.as_bytes(),
        uts46::AsciiDenyList::URL,
        uts46::Hyphens::Allow,
        |_, _, _| true,
    );
    (mapped.into_owned(), result.is_ok())
}

/// Relies on str's `to_lowercase`: the result depends on the characters
/// alone.
#[verifier::external_body]
fn to_lowercase_str(s: &str) -> (r: String)
    ensures
        r@ == lower_of(s@),
{
    s.to_lowercase()
}

/// Relies on lettre's `Address::new`, which validates the user and domain
/// portions of an email address; the verdict is a function of the two
/// arguments.
#[verifier::external_body]
fn smtp_address_check(user: &str, domain: &str) -> (r: bool)
    ensures
        r == smtp_address_ok(user@, domain@),
{
    lettre::Address::new(user, domain).is_ok()
}

/// Relies on std's `String::push`: the character is appended.
#[verifier::external_body]
fn push_char(s: &mut String, c: char)
    ensures
        final(s)@ == old(s)@.push(c),
{
    s.push(c);
}

/// The user portion with unnecessary escapes removed: a backslash stays
/// only where it escapes a double-quote or another backslash, since only
/// those need escaping as per RFC 5321 (section 4.1.2).
pub open spec fn unescaped(s: Seq<char>) -> Seq<char>
    decreases s.len(),
{
    if s.len() == 0 {
        Seq::empty()
    } else if s[0] == '\\' {
        if s.len() >= 2 && (s[1] == '"' || s[1] == '\\') {
            seq![s[0], s[1]] + unescaped(s.skip(2))
        } else {
            unescaped(s.skip(1))
        }
    } else {
        seq![s[0]] + unescaped(s.skip(1))
    }
}

/// Whether a character may appear unquoted in the user portion, as per RFC
/// 6531 (section 3.3).
pub open spec fn unquoted_allowed(c: char) -> bool {
    ||| c == '.'
    ||| ('A' <= c && c <= 'Z')
    ||| ('a' <= c && c <= 'z')
    ||| ('0' <= c && c <= '9')
    ||| c == '!'
    ||| c == '#'
    ||| c == '$'
    ||| c == '%'
    ||| c == '&'
    ||| c == '\''
    ||| c == '*'
    ||| c == '+'
    ||| c == '-'
    ||| c == '/'
    ||| c == '='
    ||| c == '?'
    ||| c == '^'
    ||| c == '_'
    ||| c == '`'
    ||| c == '{'
    ||| c == '|'
    ||| c == '}'
    ||| c == '~'
    ||| c >= '\u{0080}'
}

/// Whether the user portion is wrapped in double quotes.
pub open spec fn quoted(user: Seq<char>) -> bool {
    user.len() >= 2 && user[0] == '"' && user.last() == '"'
}

/// The normalized user portion: unnecessary quotes and escapes are removed
/// from a quoted user; anything else is left alone. The user portion is not
/// case-folded, because RFC 5321 (section 2.3.11) lets mail servers treat
/// it case-sensitively.
pub open spec fn normalized_user(user: Seq<char>) -> Seq<char> {
    if !quoted(user) {
        user
    } else {
        let inner = user.subrange(1, user.len() - 1);
        let un = unescaped(inner);
        if forall|i: int| 0 <= i < un.len() ==> unquoted_allowed(#[trigger] un[i]) {
            un
        } else if un == inner {
            user
        } else {
            seq!['"'] + un + seq!['"']
        }
    }
}

/// The characters of a string slice, in order.
pub fn chars_vec(s: &str) -> (r: Vec<char>)
    ensures
        r@ == s@,
{
    let n = s.unicode_len();
    let mut out: Vec<char> = Vec::new();
    let mut i: usize = 0;
    while i < n
        invariant
            0 <= i <= n,
            n == s@.len(),
            out@ =~= s@.subrange(0, i as int),
        decreases n - i,
    {
        out.push(s.get_char(i));
        i = i + 1;
    }
    proof {
        assert(out@ =~= s@);
    }
    out
}

/// A string holding exactly these characters.
pub fn string_from_chars(v: &Vec<char>) -> (r: String)
    ensures
        r@ == v@,
{
    let mut out = String::new();
    let mut i: usize = 0;
    while i < v.len()
        invariant
            0 <= i <= v@.len(),
            out@ =~= v@.subrange(0, i as int),
        decreases v@.len() - i,
    {
        push_char(&mut out, v[i]);
        proof {
            assert(out@ =~= v@.subrange(0, i + 1));
        }
        i = i + 1;
    }
    proof {
        assert(out@ =~= v@);
    }
    out
}

/// Removes unnecessary escapes from the inner part of a quoted user
/// portion.
fn unescape_chars(s: &Vec<char>) -> (r: Vec<char>)
    ensures
        r@ == unescaped(s@),
{
    let mut out: Vec<char> = Vec::new();
    let mut i: usize = 0;
    proof {
        assert(s@.skip(0) =~= s@);
    }
    while i < s.len()
        invariant
            0 <= i <= s@.len(),
            unescaped(s@) =~= out@ + unescaped(s@.skip(i as int)),
        decreases s@.len() - i,
    {
        let c = s[i];
        if c == '\\' {
            if i + 1 < s.len() && (s[i + 1] == '"' || s[i + 1] == '\\') {
                out.push(c);
                out.push(s[i + 1]);
                proof {
                    assert(s@.skip(i as int)[0] == c);
                    assert(s@.skip(i as int)[1] == s@[i + 1]);
                    assert(s@.skip(i as int).skip(2) =~= s@.skip(i + 2));
                    assert(unescaped(s@.skip(i as int)) == seq![c, s@[i + 1]] + unescaped(
                        s@.skip(i + 2),
                    ));
                }
                i = i + 2;
            } else {
                proof {
                    assert(s@.skip(i as int)[0] == c);
                    assert(s@.skip(i as int).skip(1) =~= s@.skip(i + 1));
                    if s@.skip(i as int).len() >= 2 {
                        assert(s@.skip(i as int)[1] == s@[i + 1]);
                    }
                    assert(unescaped(s@.skip(i as int)) == unescaped(s@.skip(i + 1)));
                }
                i = i + 1;
            }
        } else {
            out.push(c);
            proof {
                assert(s@.skip(i as int)[0] == c);
                assert(s@.skip(i as int).skip(1) =~= s@.skip(i + 1));
                assert(unescaped(s@.skip(i as int)) == seq![c] + unescaped(s@.skip(i + 1)));
            }
            i = i + 1;
        }
    }
    proof {
        assert(s@.skip(s@.len() as int) =~= Seq::<char>::empty());
        assert(out@ =~= unescaped(s@));
    }
    out
}

/// Compares two character vectors.
fn chars_eq(a: &Vec<char>, b: &Vec<char>) -> (r: bool)
    ensures
        r == (a@ == b@),
{
    if a.len() != b.len() {
        return false;
    }
    let mut i: usize = 0;
    while i < a.len()
        invariant
            0 <= i <= a@.len(),
            a@.len() == b@.len(),
            forall|j: int| 0 <= j < i ==> a@[j] == b@[j],
        decreases a@.len() - i,
    {
        if a[i] != b[i] {
            return false;
        }
        i = i + 1;
    }
    proof {
        assert(a@ =~= b@);
    }
    true
}

/// Copies a character vector.
fn copy_chars(a: &Vec<char>) -> (r: Vec<char>)
    ensures
        r@ == a@,
{
    let mut out: Vec<char> = Vec::new();
    let mut i: usize = 0;
    while i < a.len()
        invariant
            0 <= i <= a@.len(),
            out@ =~= a@.subrange(0, i as int),
        decreases a@.len() - i,
    {
        out.push(a[i]);
        i = i + 1;
    }
    proof {
        assert(out@ =~= a@);
    }
    out
}

/// Whether a character may appear unquoted in the user portion.
fn unquoted_allowed_char(c: char) -> (r: bool)
    ensures
        r == unquoted_allowed(c),
{
    c == '.' || ('A' <= c && c <= 'Z') || ('a' <= c && c <= 'z') || ('0' <= c && c <= '9') || c
        == '!' || c == '#' || c == '$' || c == '%' || c == '&' || c == '\'' || c == '*' || c == '+'
        || c == '-' || c == '/' || c == '=' || c == '?' || c == '^' || c == '_' || c == '`' || c
        == '{' || c == '|' || c == '}' || c == '~' || c >= '\u{0080}'
}

/// Normalizes an email address's user portion by removing unnecessary
/// quotes and escapes.
pub fn normalize_email_address_user(user: &Vec<char>) -> (r: Vec<char>)
    ensures
        r@ == normalized_user(user@),
{
    if user.len() < 2 {
        return copy_chars(user);
    }
    if !(user[0] == '"' && user[user.len() - 1] == '"') {
        return copy_chars(user);
    }
    let mut inner: Vec<char> = Vec::new();
    let mut i: usize = 1;
    while i < user.len() - 1
        invariant
            1 <= i <= user@.len() - 1,
            user@.len() >= 2,
            inner@ =~= user@.subrange(1, i as int),
        decreases user@.len() - i,
    {
        inner.push(user[i]);
        i = i + 1;
    }
    proof {
        assert(inner@ =~= user@.subrange(1, user@.len() - 1));
    }
    let un = unescape_chars(&inner);
    let mut all_allowed = true;
    let mut i: usize = 0;
    while i < un.len() && all_allowed
        invariant
            0 <= i <= un@.len(),
            all_allowed ==> forall|j: int| 0 <= j < i ==> unquoted_allowed(#[trigger] un@[j]),
            !all_allowed ==> exists|j: int|
                0 <= j < un@.len() && !unquoted_allowed(#[trigger] un@[j]),
        decreases un@.len() - i,
    {
        if !unquoted_allowed_char(un[i]) {
            all_allowed = false;
        }
        i = i + 1;
    }
    if all_allowed {
        return un;
    }
    // The quotes are necessary, so keep the user quoted; keep it verbatim
    // when no escape was removed.
    if chars_eq(&un, &inner) {
        return copy_chars(user);
    }
    let mut out: Vec<char> = Vec::new();
    out.push('"');
    let mut i: usize = 0;
    while i < un.len()
        invariant
            0 <= i <= un@.len(),
            out@ =~= seq!['"'] + un@.subrange(0, i as int),
        decreases un@.len() - i,
    {
        out.push(un[i]);
        i = i + 1;
    }
    out.push('"');
    proof {
        assert(out@ =~= seq!['"'] + un@ + seq!['"']);
    }
    out
}

/// An error constructing a [`UserEmail`].
pub enum UserEmailError {
    /// The email address was invalid.
    Invalid,
    /// The domain part was an IP address rather than a domain name. There
    /// is no reason to let users use IP addresses in emails; strict mail
    /// agents don't even allow them.
    IpAddr,
}

/// A user-inputted email address: validated, with the domain name
/// normalized (for non-ASCII forms) and the user portion unquoted where the
/// quotes are unnecessary.
pub struct UserEmail {
    inner: String,
}

impl View for UserEmail {
    type V = Seq<char>;

    closed spec fn view(&self) -> Seq<char> {
        self.inner@
    }
}

/// There is no '@' at or after this position in the string.
pub open spec fn no_at_from(s: Seq<char>, from: int) -> bool {
    forall|j: int| from <= j < s.len() ==> s[j] != '@'
}

/// What parsing an email address yields for a split of the input at its
/// last '@': the outcomes of the domain checks and normalizations, and the
/// mail library's verdict on the normalized parts.
pub open spec fn parsed_email_at(s: Seq<char>, at: int) -> Result<Seq<char>, UserEmailError> {
    let user = s.subrange(0, at);
    let domain = s.subrange(at + 1, s.len() as int);
    if domain.len() > 0 && domain[0] == '[' {
        Err(UserEmailError::IpAddr)
    } else if !idna_mapped(domain).1 {
        Err(UserEmailError::Invalid)
    } else {
        let nu = normalized_user(user);
        let nd = lower_of(idna_mapped(domain).0);
        if !smtp_address_ok(nu, nd) {
            Err(UserEmailError::Invalid)
        } else {
            Ok(nu + seq!['@'] + nd)
        }
    }
}

/// What parsing an email address yields: too-long or '@'-less inputs are
/// invalid; anything else is decided at the last '@'.
pub open spec fn parsed_email(s: Seq<char>) -> Result<Seq<char>, UserEmailError> {
    if s.len() > EMAIL_MAX_LENGTH {
        Err(UserEmailError::Invalid)
    } else if no_at_from(s, 0) {
        Err(UserEmailError::Invalid)
    } else {
        let at = choose|at: int| 0 <= at < s.len() && s[at] == '@' && no_at_from(s, at + 1);
        parsed_email_at(s, at)
    }
}

impl UserEmail {
    /// Borrows the email address string.
    pub fn as_str(&self) -> (r: &str)
        ensures
            r@ == self@,
    {
        self.inner.as_str()
    }

    /// Consumes the [`UserEmail`], returning the inner [`String`].
    pub fn into_inner(self) -> (r: String)
        ensures
            r@ == self@,
    {
        self.inner
    }

    /// Parses and normalizes a user-inputted email address.
    pub fn from_str(s: &str) -> (r: Result<UserEmail, UserEmailError>)
        ensures
            match r {
                Ok(email) => parsed_email(s@) matches Ok(e) && e == email@,
                Err(e) => parsed_email(s@) matches Err(e2) && e2 == e,
            },
    {
        let n = s.unicode_len();
        if n > EMAIL_MAX_LENGTH {
            return Err(UserEmailError::Invalid);
        }
        // Find the last '@', which separates the user portion from the
        // domain.
        let mut k: usize = n;
        let mut at_found: Option<usize> = None;
        while k > 0 && at_found.is_none()
            invariant
                0 <= k <= n,
                n == s@.len(),
                at_found is None ==> no_at_from(s@, k as int),
                at_found matches Some(a) ==> 0 <= a < n && s@[a as int] == '@' && no_at_from(
                    s@,
                    a + 1,
                ),
            decreases (if at_found is Some { 0int } else { k as int }),
        {
            if s.get_char(k - 1) == '@' {
                at_found = Some(k - 1);
            } else {
                k = k - 1;
            }
        }
        let at = match at_found {
            Some(at) => at,
            None => {
                return Err(UserEmailError::Invalid);
            },
        };
        proof {
            assert(0 <= at < s@.len() && s@[at as int] == '@' && no_at_from(s@, at + 1));
            assert(!no_at_from(s@, 0));
            let w = choose|w: int| 0 <= w < s@.len() && s@[w] == '@' && no_at_from(s@, w + 1);
            if w != at {
                assert(s@[w] == '@');
                assert(s@[at as int] == '@');
                if w < at {
                    assert(!no_at_from(s@, w + 1));
                } else {
                    assert(!no_at_from(s@, at + 1));
                }
            }
            assert((choose|w: int| 0 <= w < s@.len() && s@[w] == '@' && no_at_from(s@, w + 1))
                == at as int);
        }
        let ghost domain_view = s@.subrange(at + 1, s@.len() as int);
        let user_str = s.substring_char(0, at);
        let domain_str = s.substring_char(at + 1, n);
        if at + 1 < n && s.get_char(at + 1) == '[' {
            proof {
                assert(domain_view.len() > 0 && domain_view[0] == '[');
            }
            return Err(UserEmailError::IpAddr);
        }
        proof {
            if domain_view.len() > 0 {
                assert(domain_view[0] == s@[at + 1]);
                assert(domain_view[0] != '[');
            }
        }
        let (mapped, domain_ok) = idna_domain(domain_str);
        proof {
            assert(domain_str@ == domain_view);
        }
        if !domain_ok {
            return Err(UserEmailError::Invalid);
        }
        let user_chars = chars_vec(user_str);
        let normalized = normalize_email_address_user(&user_chars);
        let user_out = string_from_chars(&normalized);
        let domain_out = to_lowercase_str(mapped.as_str());
        if !smtp_address_check(user_out.as_str(), domain_out.as_str()) {
            return Err(UserEmailError::Invalid);
        }
        let mut out = user_out;
        out.append("@");
        out.append(domain_out.as_str());
        proof {
            reveal_strlit("@");
            assert("@"@ =~= seq!['@']);
            assert(out@ =~= normalized_user(s@.subrange(0, at as int)) + seq!['@'] + lower_of(
                idna_mapped(s@.subrange(at + 1, s@.len() as int)).0,
            ));
        }
        Ok(UserEmail { inner: out })
    }
}

} // verus!
