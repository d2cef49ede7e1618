//! Character count validation: the number of Unicode scalar values
//! (`str::chars().count()`) lies in `min..=max`.
//!
//! The entrypoint is the [`CharCount`] trait, implemented for every
//! `T: HasCharCount` and for `Option` of such a type.
use std::borrow::Cow;
use crate::i18n::I18n;
use vstd::prelude::*;

use crate::error::{fails_with, Error};
use crate::text::{decimal, push_str, Describe};

verus! {

/// Which bound a count is outside of.
#[derive(Debug, Clone, Copy, PartialEq, Eq, Structural)]
pub enum InvalidLength {
    Min,
    Max,
}

/// The outcome of checking a count against `min..=max`.
pub open spec fn count_check(count: nat, min: usize, max: usize) -> Result<(), InvalidLength> {
    if count < min {
        Err(InvalidLength::Min)
    } else if count > max {
        Err(InvalidLength::Max)
    } else {
        Ok(())
    }
}

pub fn apply<T: CharCount>(v: &T, args: (usize, usize)) -> (r: Result<(), Error>)
    ensures
        match v.char_count_check(args.0, args.1) {
            Ok(()) => r is Ok,
            Err(InvalidLength::Min) => fails_with(
                r,
                "character count is lower than "@ + decimal(args.0 as nat),
            ),
            Err(InvalidLength::Max) => fails_with(
                r,
                "character count is greater than "@ + decimal(args.1 as nat),
            ),
        },
{
    let (min, max) = args;
    match v.validate_char_count(min, max) {
        Err(InvalidLength::Min) => {
            let mut m = String::new();
            push_str(&mut m, "character count is lower than ");
            let n = min.describe();
            push_str(&mut m, n.as_str());
            Err(Error::new(m))
        },
        Err(InvalidLength::Max) => {
            let mut m = String::new();
            push_str(&mut m, "character count is greater than ");
            let n = max.describe();
            push_str(&mut m, n.as_str());
            Err(Error::new(m))
        },
        Ok(()) => Ok(()),
    }
}

/// The rule with the messages of `i18n` in place of the english ones: on
/// failure, the message is one that `i18n`'s method for the rule returns
/// for the same arguments.
pub fn apply_in<T: CharCount, H: I18n>(v: &T, args: (usize, usize), i18n: &H) -> (r: Result<(), Error>)
    ensures
        match v.char_count_check(args.0, args.1) {
            Ok(()) => r is Ok,
            Err(InvalidLength::Min) => r matches Err(e) && e@.code is None && exists|m: Cow<'static, str>|
                call_ensures(H::length_lower_than, (i18n, args.0), m) && e@.message == m@,
            Err(InvalidLength::Max) => r matches Err(e) && e@.code is None && exists|m: Cow<'static, str>|
                call_ensures(H::length_greater_than, (i18n, args.1), m) && e@.message == m@,
        },
{
    let (min, max) = args;
    match v.validate_char_count(min, max) {
        Err(InvalidLength::Min) => {
            let m = i18n.length_lower_than(min);
            Err(Error::new(m))
        },
        Err(InvalidLength::Max) => {
            let m = i18n.length_greater_than(max);
            Err(Error::new(m))
        },
        Ok(()) => Ok(()),
    }
}

pub trait CharCount {
    /// The outcome of the rule for the bounds `min..=max`.
    spec fn char_count_check(&self, min: usize, max: usize) -> Result<(), InvalidLength>;

    fn validate_char_count(&self, min: usize, max: usize) -> (r: Result<(), InvalidLength>)
        ensures
            r == self.char_count_check(min, max),
    ;
}

/// Containers whose length can be counted in characters.
pub trait HasCharCount {
    /// The number of characters.
    spec fn chars_in(&self) -> nat;

    fn char_count(&self) -> (r: usize)
        ensures
            r == self.chars_in(),
    ;
}

impl<T: HasCharCount> CharCount for T {
    open spec fn char_count_check(&self, min: usize, max: usize) -> Result<(), InvalidLength> {
        count_check(self.chars_in(), min, max)
    }

    fn validate_char_count(&self, min: usize, max: usize) -> (r: Result<(), InvalidLength>) {
        let len = self.char_count();
        if len < min {
            Err(InvalidLength::Min)
        } else if len > max {
            Err(InvalidLength::Max)
        } else {
            Ok(())
        }
    }
}

impl<T: CharCount> CharCount for Option<T> {
    open spec fn char_count_check(&self, min: usize, max: usize) -> Result<(), InvalidLength> {
        match self {
            Some(value) => value.char_count_check(min, max),
            None => Ok(()),
        }
    }

    fn validate_char_count(&self, min: usize, max: usize) -> (r: Result<(), InvalidLength>) {
        match self {
            Some(value) => value.validate_char_count(min, max),
            None => Ok(()),
        }
    }
}

/// Number of characters of a string slice.
fn count_chars(s: &str) -> (r: usize)
    ensures
        r == s@.len(),
{
    crate::text::chars_of(s).len()
}

impl HasCharCount for String {
    open spec fn chars_in(&self) -> nat {
        self@.len()
    }

    fn char_count(&self) -> (r: usize) {
        count_chars(self.as_str())
    }
}

impl<'a> HasCharCount for &'a String {
    open spec fn chars_in(&self) -> nat {
        (*self)@.len()
    }

    fn char_count(&self) -> (r: usize) {
        count_chars(self.as_str())
    }
}

impl<'a> HasCharCount for &'a str {
    open spec fn chars_in(&self) -> nat {
        (*self)@.len()
    }

    fn char_count(&self) -> (r: usize) {
        count_chars(*self)
    }
}

impl<'a> HasCharCount for Cow<'a, str> {
    open spec fn chars_in(&self) -> nat {
        self@.len()
    }

    fn char_count(&self) -> (r: usize) {
        count_chars(crate::rules::AsStr::as_str(self))
    }
}

impl<'a, 'b> HasCharCount for &'a Cow<'b, str> {
    open spec fn chars_in(&self) -> nat {
        (*self)@.len()
    }

    fn char_count(&self) -> (r: usize) {
        count_chars(crate::rules::AsStr::as_str(*self))
    }
}

impl HasCharCount for Box<str> {
    open spec fn chars_in(&self) -> nat {
        (**self)@.len()
    }

    fn char_count(&self) -> (r: usize) {
        count_chars(&**self)
    }
}

impl<'a> HasCharCount for &'a Box<str> {
    open spec fn chars_in(&self) -> nat {
        (***self)@.len()
    }

    fn char_count(&self) -> (r: usize) {
        count_chars(&***self)
    }
}

} // verus!
