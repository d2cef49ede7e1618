//! Email validation, following the HTML5 definition of a valid e-mail
//! address: `user@domain`, where the user part is a non-empty run of
//! letters, digits and the characters ``.!#$%&'*+/=?^_`{|}~-``, and the
//! domain is a dot-separated list of labels of 1 to 63 letters, digits and
//! hyphens that neither begin nor end with a hyphen, or an IP address in
//! square brackets. The user part is at most 64 bytes long and the domain
//! at most 255 bytes; an internationalized domain is accepted when its ASCII
//! form (IDNA) is a valid domain.
//!
//! Letters are matched case-insensitively with Unicode simple case folding,
//! so the Kelvin sign `K` (U+212A) counts as `k` and the long s `ſ` (U+017F)
//! as `s`.
use std::borrow::Cow;
use crate::i18n::I18n;
use vstd::prelude::*;

use super::ip::{ip_parses, parses_as_ip};
use crate::error::{fails_with, Error};
use crate::text::{chars_of, owned, push_str, Describe};
use vstd::utf8::encode_utf8;

verus! {

/// Reasons an email value can fail to parse.
#[derive(Debug, Clone, Copy, PartialEq, Structural)]
pub enum InvalidEmail {
    Empty,
    MissingAt,
    UserLengthExceeded,
    InvalidUser,
    DomainLengthExceeded,
    InvalidDomain,
}

impl Describe for InvalidEmail {
    open spec fn description(&self) -> Seq<char> {
        match self {
            InvalidEmail::Empty => "value is empty"@,
            InvalidEmail::MissingAt => "value is missing `@`"@,
            InvalidEmail::UserLengthExceeded => "user length exceeded maximum of 64 characters"@,
            InvalidEmail::InvalidUser => "user contains unexpected characters"@,
            InvalidEmail::DomainLengthExceeded => "domain length exceeded maximum of 255 characters"@,
            InvalidEmail::InvalidDomain => "domain contains unexpected characters"@,
        }
    }

    fn describe(&self) -> (r: String) {
        match self {
            InvalidEmail::Empty => owned("value is empty"),
            InvalidEmail::MissingAt => owned("value is missing `@`"),
            InvalidEmail::UserLengthExceeded => owned("user length exceeded maximum of 64 characters"),
            InvalidEmail::InvalidUser => owned("user contains unexpected characters"),
            InvalidEmail::DomainLengthExceeded => owned("domain length exceeded maximum of 255 characters"),
            InvalidEmail::InvalidDomain => owned("domain contains unexpected characters"),
        }
    }
}

/// A letter or digit, letters matched case-insensitively: ASCII letters and
/// digits, the Kelvin sign and the long s.
pub open spec fn is_alnum(c: char) -> bool {
    ||| ('a' <= c && c <= 'z')
    ||| ('A' <= c && c <= 'Z')
    ||| ('0' <= c && c <= '9')
    ||| c == '\u{212A}'
    ||| c == '\u{17F}'
}

/// A character allowed in the user part.
pub open spec fn is_user_char(c: char) -> bool {
    ||| is_alnum(c)
    ||| c == '.' || c == '!' || c == '#' || c == '$' || c == '%' || c == '&' || c == '\''
    ||| c == '*' || c == '+' || c == '/' || c == '=' || c == '?' || c == '^' || c == '_'
    ||| c == '`' || c == '{' || c == '|' || c == '}' || c == '~' || c == '-'
}

/// A valid user part: non-empty, made of user characters.
pub open spec fn is_valid_user(u: Seq<char>) -> bool {
    u.len() > 0 && forall|i: int| 0 <= i < u.len() ==> is_user_char(#[trigger] u[i])
}

/// A domain name: dot-separated labels of 1 to 63 letters, digits and
/// hyphens, each beginning and ending with a letter or digit.
///
/// Stated without splitting: every character is a letter, digit, hyphen or
/// dot; the first and last characters and both neighbours of every dot are
/// letters or digits; and no 64 consecutive characters are free of dots.
pub open spec fn is_domain_name(d: Seq<char>) -> bool {
    &&& d.len() > 0
    &&& is_alnum(d[0])
    &&& is_alnum(d[d.len() - 1])
    &&& forall|i: int|
        0 <= i < d.len() ==> (is_alnum(#[trigger] d[i]) || d[i] == '-' || d[i] == '.')
    &&& forall|i: int|
        0 < i < d.len() - 1 && #[trigger] d[i] == '.' ==> is_alnum(d[i - 1]) && is_alnum(d[i + 1])
    &&& forall|a: int| 0 <= a && a + 64 <= d.len() ==> #[trigger] window_has_dot(d, a)
}

/// One of the 64 characters from position `a` on is a dot.
pub open spec fn window_has_dot(d: Seq<char>, a: int) -> bool {
    exists|k: int| a <= k < a + 64 && #[trigger] d[k] == '.'
}

/// An IP address between square brackets.
pub open spec fn is_smtp_addr(d: Seq<char>) -> bool {
    d.len() >= 2 && d[0] == '[' && d[d.len() - 1] == ']' && parses_as_ip(d.subrange(1, d.len() - 1))
}

/// A valid domain part.
pub open spec fn is_valid_domain(d: Seq<char>) -> bool {
    is_domain_name(d) || is_smtp_addr(d)
}

/// The ASCII form of a domain as `idna::domain_to_ascii` computes it, or
/// `None` where it fails.
pub uninterp spec fn idna_domain_to_ascii(domain: Seq<char>) -> Option<Seq<char>>;

/// Calls `idna::domain_to_ascii`; its result is named `idna_domain_to_ascii`.
#[verifier::external_body]
fn domain_to_ascii(domain: &str) -> (r: Option<String>)
    ensures
        match idna_domain_to_ascii(domain@) {
            Some(a) => r is Some && r.unwrap()@ == a,
            None => r is None,
        },
{
    match idna::domain_to_ascii(domain) {
        Ok(a) => Some(a),
        Err(_) => None,
    }
}

/// `i` is the position of the first `@` in `s`.
pub open spec fn is_first_at(s: Seq<char>, i: int) -> bool {
    0 <= i < s.len() && s[i] == '@' && forall|j: int| 0 <= j < i ==> s[j] != '@'
}

/// The outcome of parsing `s` as an email address.
pub open spec fn email_check(s: Seq<char>) -> Result<(), InvalidEmail> {
    if s.len() == 0 {
        Err(InvalidEmail::Empty)
    } else if !(exists|i: int| is_first_at(s, i)) {
        Err(InvalidEmail::MissingAt)
    } else {
        let at = choose|i: int| is_first_at(s, i);
        let user = s.subrange(0, at);
        let domain = s.subrange(at + 1, s.len() as int);
        if encode_utf8(user).len() > 64 {
            Err(InvalidEmail::UserLengthExceeded)
        } else if !is_valid_user(user) {
            Err(InvalidEmail::InvalidUser)
        } else if encode_utf8(domain).len() > 255 {
            Err(InvalidEmail::DomainLengthExceeded)
        } else if is_valid_domain(domain) {
            Ok(())
        } else {
            match idna_domain_to_ascii(domain) {
                Some(a) => if is_valid_domain(a) {
                    Ok(())
                } else {
                    Err(InvalidEmail::InvalidDomain)
                },
                None => Err(InvalidEmail::InvalidDomain),
            }
        }
    }
}

/// The punctuation that may appear in the user part of an address.
pub open spec fn user_punctuation() -> Seq<char> {
    seq!['.', '!', '#', '$', '%', '&', '\'', '*', '+', '/', '=', '?', '^', '_', '`', '{', '|', '}', '~', '-']
}

/// Every user part made of ASCII letters, digits and the punctuation
/// `.!#$%&'*+/=?^_`{|}~-`, of 1 to 64 bytes, followed by `@` and a valid
/// domain of at most 255 bytes, is an email address.
pub proof fn email_accepts_every_user_character(u: Seq<char>, d: Seq<char>)
    requires
        u.len() > 0,
        encode_utf8(u).len() <= 64,
        forall|i: int|
            0 <= i < u.len() ==> {
                ||| 'a' <= #[trigger] u[i] <= 'z'
                ||| 'A' <= u[i] <= 'Z'
                ||| '0' <= u[i] <= '9'
                ||| user_punctuation().contains(u[i])
            },
        is_valid_domain(d),
        encode_utf8(d).len() <= 255,
    ensures
        email_check(u + seq!['@'] + d) is Ok,
{
    let s = u + seq!['@'] + d;
    let n = u.len() as int;
    assert forall|i: int| 0 <= i < n implies #[trigger] s[i] != '@' && is_user_char(u[i]) by {
        assert(s[i] == u[i]);
        if user_punctuation().contains(u[i]) {
            let k = choose|k: int| 0 <= k < user_punctuation().len() && user_punctuation()[k] == u[i];
            assert(0 <= k < 20);
        }
    }
    assert(s[n] == '@');
    assert(is_first_at(s, n));
    let at = choose|i: int| is_first_at(s, i);
    assert(is_first_at(s, at));
    if at < n {
        assert(s[at] != '@');
    }
    if at > n {
        assert(s[n] != '@');
    }
    assert(at == n);
    assert(s.subrange(0, at) =~= u);
    assert(s.subrange(at + 1, s.len() as int) =~= d);
}

fn alnum(c: char) -> (r: bool)
    ensures
        r == is_alnum(c),
{
    ('a' <= c && c <= 'z') || ('A' <= c && c <= 'Z') || ('0' <= c && c <= '9') || c == '\u{212A}'
        || c == '\u{17F}'
}

fn user_char(c: char) -> (r: bool)
    ensures
        r == is_user_char(c),
{
    alnum(c) || c == '.' || c == '!' || c == '#' || c == '$' || c == '%' || c == '&' || c == '\''
        || c == '*' || c == '+' || c == '/' || c == '=' || c == '?' || c == '^' || c == '_' || c
        == '`' || c == '{' || c == '|' || c == '}' || c == '~' || c == '-'
}

fn valid_user(u: &str) -> (r: bool)
    ensures
        r == is_valid_user(u@),
{
    let cs = chars_of(u);
    if cs.len() == 0 {
        return false;
    }
    let mut i: usize = 0;
    while i < cs.len()
        invariant
            cs@ == u@,
            i <= cs@.len(),
            forall|k: int| 0 <= k < i ==> is_user_char(#[trigger] cs@[k]),
        decreases cs@.len() - i,
    {
        if !user_char(cs[i]) {
            return false;
        }
        i = i + 1;
    }
    true
}

fn domain_name(d: &str) -> (r: bool)
    ensures
        r == is_domain_name(d@),
{
    let cs = chars_of(d);
    let n = cs.len();
    if n == 0 || !alnum(cs[0]) || !alnum(cs[n - 1]) {
        return false;
    }
    let ghost s = d@;
    // Number of characters since the last dot (or the start).
    let mut run: usize = 0;
    let mut i: usize = 0;
    while i < n
        invariant
            cs@ == s,
            s == d@,
            n == s.len(),
            n > 0,
            is_alnum(s[0]),
            is_alnum(s[n - 1]),
            i <= n,
            run <= 63,
            run <= i,
            forall|k: int| i - run <= k < i ==> #[trigger] s[k] != '.',
            run < i ==> s[i - run - 1] == '.',
            forall|k: int| 0 <= k < i ==> (is_alnum(#[trigger] s[k]) || s[k] == '-' || s[k] == '.'),
            forall|k: int|
                0 < k < n - 1 && k < i && #[trigger] s[k] == '.' ==> is_alnum(s[k - 1]) && is_alnum(
                    s[k + 1],
                ),
            forall|a: int| 0 <= a && a + 64 <= i ==> #[trigger] window_has_dot(s, a),
        decreases n - i,
    {
        let c = cs[i];
        if c == '.' {
            if i == 0 || i == n - 1 || !alnum(cs[i - 1]) || !alnum(cs[i + 1]) {
                proof {
                    if 0 < i < n - 1 {
                        assert(s[i as int] == '.');
                    }
                    assert(!is_domain_name(s));
                }
                return false;
            }
            run = 0;
        } else if alnum(c) || c == '-' {
            if run == 63 {
                proof {
                    let a = i - 63;
                    assert forall|k: int| a <= k < a + 64 implies s[k] != '.' by {
                        if k < i {
                            assert(i - run <= k);
                        }
                    }
                    assert(!window_has_dot(s, a));
                }
                return false;
            }
            run = run + 1;
        } else {
            proof {
                assert(!(is_alnum(s[i as int]) || s[i as int] == '-' || s[i as int] == '.'));
                assert(!is_domain_name(s));
            }
            return false;
        }
        proof {
            assert forall|a: int| 0 <= a && a + 64 <= i + 1 implies #[trigger] window_has_dot(
                s,
                a,
            ) by {
                if a + 64 == i + 1 {
                    if s[i as int] == '.' {
                        assert(s[i as int] == '.');
                    } else {
                        assert(s[i - run] == '.');
                    }
                }
            }
        }
        i = i + 1;
    }
    true
}

fn smtp_addr(d: &str) -> (r: bool)
    ensures
        r == is_smtp_addr(d@),
{
    let n = d.unicode_len();
    if n < 2 || d.get_char(0) != '[' || d.get_char(n - 1) != ']' {
        return false;
    }
    ip_parses(d.substring_char(1, n - 1))
}

fn valid_domain(d: &str) -> (r: bool)
    ensures
        r == is_valid_domain(d@),
{
    domain_name(d) || smtp_addr(d)
}

/// Number of bytes of the UTF-8 encoding of `s`.
fn utf8_len(s: &str) -> (r: usize)
    ensures
        r == encode_utf8(s@).len(),
{
    s.as_bytes().len()
}

/// Parses `s` as an email address.
pub fn parse_email(s: &str) -> (r: Result<(), InvalidEmail>)
    ensures
        r == email_check(s@),
{
    let n = s.unicode_len();
    if n == 0 {
        return Err(InvalidEmail::Empty);
    }
    let mut at: usize = 0;
    while at < n
        invariant
            n == s@.len(),
            at <= n,
            forall|j: int| 0 <= j < at ==> s@[j] != '@',
        ensures
            at <= n,
            forall|j: int| 0 <= j < at ==> s@[j] != '@',
            at < n ==> s@[at as int] == '@',
        decreases n - at,
    {
        if s.get_char(at) == '@' {
            break;
        }
        at = at + 1;
    }
    if at == n {
        assert(!(exists|i: int| is_first_at(s@, i)));
        return Err(InvalidEmail::MissingAt);
    }
    assert(is_first_at(s@, at as int));
    proof {
        let c = choose|i: int| is_first_at(s@, i);
        assert(c == at) by {
            if c < at {
                assert(s@[c] != '@');
            } else if c > at {
                assert(s@[at as int] != '@');
            }
        }
    }
    let user = s.substring_char(0, at);
    let domain = s.substring_char(at + 1, n);
    if utf8_len(user) > 64 {
        return Err(InvalidEmail::UserLengthExceeded);
    }
    if !valid_user(user) {
        return Err(InvalidEmail::InvalidUser);
    }
    if utf8_len(domain) > 255 {
        return Err(InvalidEmail::DomainLengthExceeded);
    }
    if !valid_domain(domain) {
        match domain_to_ascii(domain) {
            None => {
                return Err(InvalidEmail::InvalidDomain);
            },
            Some(ascii) => {
                if !valid_domain(ascii.as_str()) {
                    return Err(InvalidEmail::InvalidDomain);
                }
            },
        }
    }
    Ok(())
}

pub fn apply<T: Email>(v: &T, args: ()) -> (r: Result<(), Error>)
    ensures
        match v.email_outcome() {
            Ok(()) => r is Ok,
            Err(e) => fails_with(r, "not a valid email: "@ + e.description()),
        },
{
    match v.try_parse_email() {
        Err(e) => {
            let mut m = owned("not a valid email: ");
            let t = e.describe();
            push_str(&mut m, t.as_str());
            Err(Error::new(m))
        },
        Ok(()) => Ok(()),
    }
}

/// The same reason, as the message handler names it.
pub open spec fn reason_for_i18n(e: InvalidEmail) -> crate::i18n::InvalidEmail {
    match e {
        InvalidEmail::Empty => crate::i18n::InvalidEmail::Empty,
        InvalidEmail::MissingAt => crate::i18n::InvalidEmail::MissingAt,
        InvalidEmail::UserLengthExceeded => crate::i18n::InvalidEmail::UserLengthExceeded,
        InvalidEmail::InvalidUser => crate::i18n::InvalidEmail::InvalidUser,
        InvalidEmail::DomainLengthExceeded => crate::i18n::InvalidEmail::DomainLengthExceeded,
        InvalidEmail::InvalidDomain => crate::i18n::InvalidEmail::InvalidDomain,
    }
}

fn to_i18n_reason(e: InvalidEmail) -> (r: crate::i18n::InvalidEmail)
    ensures
        r == reason_for_i18n(e),
{
    match e {
        InvalidEmail::Empty => crate::i18n::InvalidEmail::Empty,
        InvalidEmail::MissingAt => crate::i18n::InvalidEmail::MissingAt,
        InvalidEmail::UserLengthExceeded => crate::i18n::InvalidEmail::UserLengthExceeded,
        InvalidEmail::InvalidUser => crate::i18n::InvalidEmail::InvalidUser,
        InvalidEmail::DomainLengthExceeded => crate::i18n::InvalidEmail::DomainLengthExceeded,
        InvalidEmail::InvalidDomain => crate::i18n::InvalidEmail::InvalidDomain,
    }
}

/// The rule with the messages of `i18n` in place of the english ones: on
/// failure, the message is one that `i18n`'s method for the rule returns
/// for the same arguments.
pub fn apply_in<T: Email<Error = InvalidEmail>, H: I18n>(v: &T, args: (), i18n: &H) -> (r: Result<(), Error>)
    ensures
        r is Ok <==> v.email_outcome() is Ok,
        r matches Err(e) ==> e@.code is None && exists|m: Cow<'static, str>|
            call_ensures(H::email_invalid, (i18n, reason_for_i18n(v.email_outcome()->Err_0)), m) && e@.message == m@,
{
    match v.try_parse_email() {
        Err(reason) => {
            let m = i18n.email_invalid(to_i18n_reason(reason));
            Err(Error::new(m))
        },
        Ok(()) => Ok(()),
    }
}

/// Types that can be checked to be an email address.
pub trait Email {
    /// The reason of a failed check.
    type Error: Describe;

    /// The outcome of the check.
    spec fn email_outcome(&self) -> Result<(), Self::Error>;

    fn try_parse_email(&self) -> (r: Result<(), Self::Error>)
        ensures
            r == self.email_outcome(),
    ;
}

impl Email for String {
    type Error = InvalidEmail;

    open spec fn email_outcome(&self) -> Result<(), InvalidEmail> {
        email_check(self@)
    }

    fn try_parse_email(&self) -> (r: Result<(), InvalidEmail>) {
        parse_email(self.as_str())
    }
}

impl<'a> Email for &'a str {
    type Error = InvalidEmail;

    open spec fn email_outcome(&self) -> Result<(), InvalidEmail> {
        email_check((*self)@)
    }

    fn try_parse_email(&self) -> (r: Result<(), InvalidEmail>) {
        parse_email(*self)
    }
}

impl<'a> Email for Cow<'a, str> {
    type Error = InvalidEmail;

    open spec fn email_outcome(&self) -> Result<(), InvalidEmail> {
        email_check(self@)
    }

    fn try_parse_email(&self) -> (r: Result<(), InvalidEmail>) {
        parse_email(crate::rules::AsStr::as_str(self))
    }
}

} // verus!
