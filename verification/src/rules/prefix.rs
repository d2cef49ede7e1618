//! Prefix validation: the value begins with the pattern.
//!
//! The entrypoint is the [`Prefix`] trait, implemented for every
//! `T: garde::rules::AsStr` and for `Option` of such a type.
use std::borrow::Cow;
use vstd::prelude::*;

use super::AsStr;
use crate::error::Error;
use crate::text::{str_starts_with, seq_starts_with};
use crate::i18n::{DefaultI18n, I18n};

verus! {

pub fn apply<T: Prefix>(v: &T, args: (&str,)) -> (r: Result<(), Error>)
    ensures
        r is Ok <==> v.prefix_holds(args.0@),
        r matches Err(e) ==> e@.code is None && e@.message == "value does not begin with \""@ + args.0@ + "\""@,
{
    let pat = args.0;
    if !v.validate_prefix(pat) {
        let msg = DefaultI18n.prefix_missing(pat);
        return Err(Error::new(msg));
    }
    Ok(())
}

/// The rule with the messages of `i18n` in place of the english ones: on
/// failure, the message is one that `i18n`'s method for the rule returns
/// for the same arguments.
pub fn apply_in<T: Prefix, H: I18n>(v: &T, args: (&str,), i18n: &H) -> (r: Result<(), Error>)
    ensures
        r is Ok <==> v.prefix_holds(args.0@),
        r matches Err(e) ==> e@.code is None && exists|m: Cow<'static, str>|
            call_ensures(H::prefix_missing, (i18n, args.0), m) && e@.message == m@,
{
    let pat = args.0;
    if !v.validate_prefix(pat) {
        let m = i18n.prefix_missing(pat);
        return Err(Error::new(m));
    }
    Ok(())
}

pub trait Prefix {
    /// Whether the value passes the rule for the pattern `pat`.
    spec fn prefix_holds(&self, pat: Seq<char>) -> bool;

    fn validate_prefix(&self, pat: &str) -> (r: bool)
        ensures
            r == self.prefix_holds(pat@),
    ;
}

impl<T: AsStr> Prefix for T {
    open spec fn prefix_holds(&self, pat: Seq<char>) -> bool {
        seq_starts_with(self.str_view(), pat)
    }

    fn validate_prefix(&self, pat: &str) -> (r: bool) {
        str_starts_with(self.as_str(), pat)
    }
}

impl<T: Prefix> Prefix for Option<T> {
    open spec fn prefix_holds(&self, pat: Seq<char>) -> bool {
        match self {
            Some(value) => value.prefix_holds(pat),
            None => true,
        }
    }

    fn validate_prefix(&self, pat: &str) -> (r: bool) {
        match self {
            Some(value) => value.validate_prefix(pat),
            None => true,
        }
    }
}

} // verus!
