//! Substring validation: the value contains the pattern.
//!
//! The entrypoint is the [`Contains`] trait, implemented for every
//! `T: garde::rules::AsStr` and for `Option` of such a type.
use std::borrow::Cow;
use vstd::prelude::*;

use super::AsStr;
use crate::error::Error;
use crate::text::{str_contains, seq_contains};
use crate::i18n::{DefaultI18n, I18n};

verus! {

pub fn apply<T: Contains>(v: &T, args: (&str,)) -> (r: Result<(), Error>)
    ensures
        r is Ok <==> v.contains_holds(args.0@),
        r matches Err(e) ==> e@.code is None && e@.message == "does not contain \""@ + args.0@ + "\""@,
{
    let pat = args.0;
    if !v.validate_contains(pat) {
        let msg = DefaultI18n.contains_missing(pat);
        return Err(Error::new(msg));
    }
    Ok(())
}

/// The rule with the messages of `i18n` in place of the english ones: on
/// failure, the message is one that `i18n`'s method for the rule returns
/// for the same arguments.
pub fn apply_in<T: Contains, H: I18n>(v: &T, args: (&str,), i18n: &H) -> (r: Result<(), Error>)
    ensures
        r is Ok <==> v.contains_holds(args.0@),
        r matches Err(e) ==> e@.code is None && exists|m: Cow<'static, str>|
            call_ensures(H::contains_missing, (i18n, args.0), m) && e@.message == m@,
{
    let pat = args.0;
    if !v.validate_contains(pat) {
        let m = i18n.contains_missing(pat);
        return Err(Error::new(m));
    }
    Ok(())
}

pub trait Contains {
    /// Whether the value passes the rule for the pattern `pat`.
    spec fn contains_holds(&self, pat: Seq<char>) -> bool;

    fn validate_contains(&self, pat: &str) -> (r: bool)
        ensures
            r == self.contains_holds(pat@),
    ;
}

impl<T: AsStr> Contains for T {
    open spec fn contains_holds(&self, pat: Seq<char>) -> bool {
        seq_contains(self.str_view(), pat)
    }

    fn validate_contains(&self, pat: &str) -> (r: bool) {
        str_contains(self.as_str(), pat)
    }
}

impl<T: Contains> Contains for Option<T> {
    open spec fn contains_holds(&self, pat: Seq<char>) -> bool {
        match self {
            Some(value) => value.contains_holds(pat),
            None => true,
        }
    }

    fn validate_contains(&self, pat: &str) -> (r: bool) {
        match self {
            Some(value) => value.validate_contains(pat),
            None => true,
        }
    }
}

} // verus!
