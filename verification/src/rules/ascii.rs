//! ASCII validation: every character of the value is ASCII.
//!
//! The entrypoint is the [`Ascii`] trait, implemented for every
//! `T: garde::rules::AsStr` and for `Option` of such a type.
use std::borrow::Cow;
use crate::i18n::I18n;
use vstd::prelude::*;

use super::AsStr;
use crate::error::Error;

verus! {

/// Every character is in the ASCII range `'\0'..='\x7f'`.
pub open spec fn all_ascii(s: Seq<char>) -> bool {
    forall|i: int| 0 <= i < s.len() ==> '\0' <= #[trigger] s[i] <= '\u{7f}'
}

pub fn apply<T: Ascii>(v: &T, args: ()) -> (r: Result<(), Error>)
    ensures
        r is Ok <==> v.ascii_holds(),
        r matches Err(e) ==> e@.code is None && e@.message == "not ascii"@,
{
    if !v.validate_ascii() {
        proof {
            reveal_strlit("not ascii");
        }
        return Err(Error::new("not ascii"));
    }
    Ok(())
}

/// The rule with the messages of `i18n` in place of the english ones: on
/// failure, the message is one that `i18n`'s method for the rule returns
/// for the same arguments.
pub fn apply_in<T: Ascii, H: I18n>(v: &T, args: (), i18n: &H) -> (r: Result<(), Error>)
    ensures
        r is Ok <==> v.ascii_holds(),
        r matches Err(e) ==> e@.code is None && exists|m: Cow<'static, str>|
            call_ensures(H::ascii_invalid, (i18n,), m) && e@.message == m@,
{
    if !v.validate_ascii() {
        let m = i18n.ascii_invalid();
        return Err(Error::new(m));
    }
    Ok(())
}

pub trait Ascii {
    /// Whether the value passes the rule.
    spec fn ascii_holds(&self) -> bool;

    fn validate_ascii(&self) -> (r: bool)
        ensures
            r == self.ascii_holds(),
    ;
}

impl<T: AsStr> Ascii for T {
    open spec fn ascii_holds(&self) -> bool {
        all_ascii(self.str_view())
    }

    fn validate_ascii(&self) -> (r: bool) {
        self.as_str().is_ascii()
    }
}

impl<T: Ascii> Ascii for Option<T> {
    open spec fn ascii_holds(&self) -> bool {
        match self {
            Some(value) => value.ascii_holds(),
            None => true,
        }
    }

    fn validate_ascii(&self) -> (r: bool) {
        match self {
            Some(value) => value.validate_ascii(),
            None => true,
        }
    }
}

} // verus!
