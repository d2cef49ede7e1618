//! Alphanumeric validation: every character is a letter or a digit.
//!
//! The entrypoint is the [`Alphanumeric`] trait, implemented for every
//! `T: garde::rules::AsStr` and for `Option` of such a type.
use std::borrow::Cow;
use crate::i18n::I18n;
use vstd::prelude::*;

use super::AsStr;
use crate::error::Error;
use crate::text::chars_of;

verus! {

/// Whether `char::is_alphanumeric` holds of `c` (Unicode `Alphabetic` or
/// `Numeric`).
pub uninterp spec fn is_alphanumeric_char(c: char) -> bool;

/// An ASCII letter or digit.
pub open spec fn ascii_alphanumeric(c: char) -> bool {
    ('a' <= c && c <= 'z') || ('A' <= c && c <= 'Z') || ('0' <= c && c <= '9')
}

/// Calls `char::is_alphanumeric`. Its result is named `is_alphanumeric_char`;
/// of it the contract states only what holds in the ASCII range: ASCII
/// letters and digits are alphanumeric, other ASCII characters are not.
#[verifier::external_body]
fn char_is_alphanumeric(c: char) -> (r: bool)
    ensures
        r == is_alphanumeric_char(c),
        ascii_alphanumeric(c) ==> r,
        c <= '\u{7f}' && !ascii_alphanumeric(c) ==> !r,
{
    c.is_alphanumeric()
}

/// Whether `c` is a letter or a digit: in the ASCII range an ASCII letter
/// or digit, above it as `char::is_alphanumeric` decides.
pub open spec fn alphanumeric_char(c: char) -> bool {
    if c <= '\u{7f}' {
        ascii_alphanumeric(c)
    } else {
        is_alphanumeric_char(c)
    }
}

/// Every character of `s` is alphanumeric.
pub open spec fn all_alphanumeric(s: Seq<char>) -> bool {
    forall|i: int| 0 <= i < s.len() ==> alphanumeric_char(#[trigger] s[i])
}

pub fn apply<T: Alphanumeric>(v: &T, args: ()) -> (r: Result<(), Error>)
    ensures
        r is Ok <==> v.alphanumeric_holds(),
        r matches Err(e) ==> e@.code == Some("NOT_ALPHANUMERIC"@) && e@.message
            == "not alphanumeric"@,
{
    if !v.validate_alphanumeric() {
        return Err(Error::new("not alphanumeric").with_code("NOT_ALPHANUMERIC"));
    }
    Ok(())
}

/// The rule with the messages of `i18n` in place of the english ones: on
/// failure, the message is one that `i18n`'s method for the rule returns
/// for the same arguments.
pub fn apply_in<T: Alphanumeric, H: I18n>(v: &T, args: (), i18n: &H) -> (r: Result<(), Error>)
    ensures
        r is Ok <==> v.alphanumeric_holds(),
        r matches Err(e) ==> e@.code == Some("NOT_ALPHANUMERIC"@) && exists|m: Cow<'static, str>|
            call_ensures(H::alphanumeric_invalid, (i18n,), m) && e@.message == m@,
{
    if !v.validate_alphanumeric() {
        let m = i18n.alphanumeric_invalid();
        return Err(Error::new(m).with_code("NOT_ALPHANUMERIC"));
    }
    Ok(())
}

pub trait Alphanumeric {
    /// Whether the value passes the rule.
    spec fn alphanumeric_holds(&self) -> bool;

    fn validate_alphanumeric(&self) -> (r: bool)
        ensures
            r == self.alphanumeric_holds(),
    ;
}

impl<T: AsStr> Alphanumeric for T {
    open spec fn alphanumeric_holds(&self) -> bool {
        all_alphanumeric(self.str_view())
    }

    fn validate_alphanumeric(&self) -> (r: bool) {
        let cs = chars_of(self.as_str());
        let mut i: usize = 0;
        while i < cs.len()
            invariant
                cs@ == self.str_view(),
                i <= cs@.len(),
                forall|k: int| 0 <= k < i ==> alphanumeric_char(#[trigger] cs@[k]),
            decreases cs@.len() - i,
        {
            if !char_is_alphanumeric(cs[i]) {
                return false;
            }
            i = i + 1;
        }
        true
    }
}

impl<T: Alphanumeric> Alphanumeric for Option<T> {
    open spec fn alphanumeric_holds(&self) -> bool {
        match self {
            Some(value) => value.alphanumeric_holds(),
            None => true,
        }
    }

    fn validate_alphanumeric(&self) -> (r: bool) {
        match self {
            Some(value) => value.validate_alphanumeric(),
            None => true,
        }
    }
}

} // verus!
