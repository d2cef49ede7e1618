//! Suffix validation: the value ends with the pattern.
//!
//! The entrypoint is the [`Suffix`] trait, implemented for every
//! `T: garde::rules::AsStr` and for `Option` of such a type.
use std::borrow::Cow;
use vstd::prelude::*;

use super::AsStr;
use crate::error::Error;
use crate::text::{str_ends_with, seq_ends_with};
use crate::i18n::{DefaultI18n, I18n};

verus! {

pub fn apply<T: Suffix>(v: &T, args: (&str,)) -> (r: Result<(), Error>)
    ensures
        r is Ok <==> v.suffix_holds(args.0@),
        r matches Err(e) ==> e@.code is None && e@.message == "does not end with \""@ + args.0@ + "\""@,
{
    let pat = args.0;
    if !v.validate_suffix(pat) {
        let msg = DefaultI18n.suffix_missing(pat);
        return Err(Error::new(msg));
    }
    Ok(())
}

/// The rule with the messages of `i18n` in place of the english ones: on
/// failure, the message is one that `i18n`'s method for the rule returns
/// for the same arguments.
pub fn apply_in<T: Suffix, H: I18n>(v: &T, args: (&str,), i18n: &H) -> (r: Result<(), Error>)
    ensures
        r is Ok <==> v.suffix_holds(args.0@),
        r matches Err(e) ==> e@.code is None && exists|m: Cow<'static, str>|
            call_ensures(H::suffix_missing, (i18n, args.0), m) && e@.message == m@,
{
    let pat = args.0;
    if !v.validate_suffix(pat) {
        let m = i18n.suffix_missing(pat);
        return Err(Error::new(m));
    }
    Ok(())
}

pub trait Suffix {
    /// Whether the value passes the rule for the pattern `pat`.
    spec fn suffix_holds(&self, pat: Seq<char>) -> bool;

    fn validate_suffix(&self, pat: &str) -> (r: bool)
        ensures
            r == self.suffix_holds(pat@),
    ;
}

impl<T: AsStr> Suffix for T {
    open spec fn suffix_holds(&self, pat: Seq<char>) -> bool {
        seq_ends_with(self.str_view(), pat)
    }

    fn validate_suffix(&self, pat: &str) -> (r: bool) {
        str_ends_with(self.as_str(), pat)
    }
}

impl<T: Suffix> Suffix for Option<T> {
    open spec fn suffix_holds(&self, pat: Seq<char>) -> bool {
        match self {
            Some(value) => value.suffix_holds(pat),
            None => true,
        }
    }

    fn validate_suffix(&self, pat: &str) -> (r: bool) {
        match self {
            Some(value) => value.validate_suffix(pat),
            None => true,
        }
    }
}

} // verus!
