//! Grapheme count validation: the number of extended grapheme clusters,
//! as the `unicode_segmentation` crate splits them, lies in `min..=max`.
//!
//! The entrypoint is the [`GraphemeCount`] trait, implemented for every
//! `T: HasGraphemeCount` and for `Option` of such a type.
use std::borrow::Cow;
use unicode_segmentation::UnicodeSegmentation;
use crate::i18n::I18n;
use vstd::prelude::*;

use crate::error::{fails_with, Error};
use crate::text::{decimal, push_str, Describe};

verus! {

/// Which bound a count is outside of.
#[derive(Debug, Clone, Copy, PartialEq, Eq, Structural)]
pub enum InvalidLength {
    Min,
    Max,
}

/// The outcome of checking a count against `min..=max`.
pub open spec fn count_check(count: nat, min: usize, max: usize) -> Result<(), InvalidLength> {
    if count < min {
        Err(InvalidLength::Min)
    } else if count > max {
        Err(InvalidLength::Max)
    } else {
        Ok(())
    }
}

pub fn apply<T: GraphemeCount>(v: &T, args: (usize, usize)) -> (r: Result<(), Error>)
    ensures
        match v.grapheme_count_check(args.0, args.1) {
            Ok(()) => r is Ok,
            Err(InvalidLength::Min) => fails_with(
                r,
                "grapheme count is lower than "@ + decimal(args.0 as nat),
            ),
            Err(InvalidLength::Max) => fails_with(
                r,
                "grapheme count is greater than "@ + decimal(args.1 as nat),
            ),
        },
{
    let (min, max) = args;
    match v.validate_grapheme_count(min, max) {
        Err(InvalidLength::Min) => {
            let mut m = String::new();
            push_str(&mut m, "grapheme count is lower than ");
            let n = min.describe();
            push_str(&mut m, n.as_str());
            Err(Error::new(m))
        },
        Err(InvalidLength::Max) => {
            let mut m = String::new();
            push_str(&mut m, "grapheme count is greater than ");
            let n = max.describe();
            push_str(&mut m, n.as_str());
            Err(Error::new(m))
        },
        Ok(()) => Ok(()),
    }
}

/// The rule with the messages of `i18n` in place of the english ones: on
/// failure, the message is one that `i18n`'s method for the rule returns
/// for the same arguments.
pub fn apply_in<T: GraphemeCount, H: I18n>(v: &T, args: (usize, usize), i18n: &H) -> (r: Result<(), Error>)
    ensures
        match v.grapheme_count_check(args.0, args.1) {
            Ok(()) => r is Ok,
            Err(InvalidLength::Min) => r matches Err(e) && e@.code is None && exists|m: Cow<'static, str>|
                call_ensures(H::length_lower_than, (i18n, args.0), m) && e@.message == m@,
            Err(InvalidLength::Max) => r matches Err(e) && e@.code is None && exists|m: Cow<'static, str>|
                call_ensures(H::length_greater_than, (i18n, args.1), m) && e@.message == m@,
        },
{
    let (min, max) = args;
    match v.validate_grapheme_count(min, max) {
        Err(InvalidLength::Min) => {
            let m = i18n.length_lower_than(min);
            Err(Error::new(m))
        },
        Err(InvalidLength::Max) => {
            let m = i18n.length_greater_than(max);
            Err(Error::new(m))
        },
        Ok(()) => Ok(()),
    }
}

pub trait GraphemeCount {
    /// The outcome of the rule for the bounds `min..=max`.
    spec fn grapheme_count_check(&self, min: usize, max: usize) -> Result<(), InvalidLength>;

    fn validate_grapheme_count(&self, min: usize, max: usize) -> (r: Result<(), InvalidLength>)
        ensures
            r == self.grapheme_count_check(min, max),
    ;
}

/// String-like types whose length can be counted in extended grapheme clusters.
pub trait HasGraphemeCount {
    /// The number of extended grapheme clusters.
    spec fn graphemes_in(&self) -> nat;

    fn grapheme_count(&self) -> (r: usize)
        ensures
            r == self.graphemes_in(),
    ;
}

impl<T: HasGraphemeCount> GraphemeCount for T {
    open spec fn grapheme_count_check(&self, min: usize, max: usize) -> Result<(), InvalidLength> {
        count_check(self.graphemes_in(), min, max)
    }

    fn validate_grapheme_count(&self, min: usize, max: usize) -> (r: Result<(), InvalidLength>) {
        let len = self.grapheme_count();
        if len < min {
            Err(InvalidLength::Min)
        } else if len > max {
            Err(InvalidLength::Max)
        } else {
            Ok(())
        }
    }
}

impl<T: GraphemeCount> GraphemeCount for Option<T> {
    open spec fn grapheme_count_check(&self, min: usize, max: usize) -> Result<(), InvalidLength> {
        match self {
            Some(value) => value.grapheme_count_check(min, max),
            None => Ok(()),
        }
    }

    fn validate_grapheme_count(&self, min: usize, max: usize) -> (r: Result<(), InvalidLength>) {
        match self {
            Some(value) => value.validate_grapheme_count(min, max),
            None => Ok(()),
        }
    }
}

/// The number of extended grapheme clusters in `s`, as
/// `unicode_segmentation` counts them.
pub uninterp spec fn grapheme_clusters(s: Seq<char>) -> nat;

/// Calls `UnicodeSegmentation::graphemes(s, true).count()`. The count is named
/// `grapheme_clusters`; the contract adds only that the empty string has none.
#[verifier::external_body]
fn count_graphemes(s: &str) -> (r: usize)
    ensures
        r == grapheme_clusters(s@),
        s@.len() == 0 ==> r == 0,
{
    s.graphemes(true).count()
}

impl HasGraphemeCount for String {
    open spec fn graphemes_in(&self) -> nat {
        grapheme_clusters(self@)
    }

    fn grapheme_count(&self) -> (r: usize) {
        count_graphemes(self.as_str())
    }
}

impl<'a> HasGraphemeCount for &'a String {
    open spec fn graphemes_in(&self) -> nat {
        grapheme_clusters((*self)@)
    }

    fn grapheme_count(&self) -> (r: usize) {
        count_graphemes(self.as_str())
    }
}

impl<'a> HasGraphemeCount for &'a str {
    open spec fn graphemes_in(&self) -> nat {
        grapheme_clusters((*self)@)
    }

    fn grapheme_count(&self) -> (r: usize) {
        count_graphemes(*self)
    }
}

impl<'a> HasGraphemeCount for Cow<'a, str> {
    open spec fn graphemes_in(&self) -> nat {
        grapheme_clusters(self@)
    }

    fn grapheme_count(&self) -> (r: usize) {
        count_graphemes(crate::rules::AsStr::as_str(self))
    }
}

impl<'a, 'b> HasGraphemeCount for &'a Cow<'b, str> {
    open spec fn graphemes_in(&self) -> nat {
        grapheme_clusters((*self)@)
    }

    fn grapheme_count(&self) -> (r: usize) {
        count_graphemes(crate::rules::AsStr::as_str(*self))
    }
}

impl HasGraphemeCount for Box<str> {
    open spec fn graphemes_in(&self) -> nat {
        grapheme_clusters((**self)@)
    }

    fn grapheme_count(&self) -> (r: usize) {
        count_graphemes(&**self)
    }
}

impl<'a> HasGraphemeCount for &'a Box<str> {
    open spec fn graphemes_in(&self) -> nat {
        grapheme_clusters((***self)@)
    }

    fn grapheme_count(&self) -> (r: usize) {
        count_graphemes(&***self)
    }
}

} // verus!
