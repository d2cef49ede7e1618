//! Byte length validation: the number of bytes lies in `min..=max`. For
//! strings that is the length of their UTF-8 encoding.
//!
//! This rule is deprecated in favour of `length`.
//!
//! The entrypoint is the [`ByteLength`] trait, implemented for every
//! `T: HasByteLength` and for `Option` of such a type.
use std::borrow::Cow;
use crate::i18n::I18n;
use vstd::prelude::*;

use super::AsStr;
use crate::error::{fails_with, Error};
use crate::text::{decimal, push_str, Describe};

verus! {

/// Which bound a count is outside of.
#[derive(Debug, Clone, Copy, PartialEq, Eq, Structural)]
pub enum InvalidLength {
    Min,
    Max,
}

/// The outcome of checking a count against `min..=max`.
pub open spec fn count_check(count: nat, min: usize, max: usize) -> Result<(), InvalidLength> {
    if count < min {
        Err(InvalidLength::Min)
    } else if count > max {
        Err(InvalidLength::Max)
    } else {
        Ok(())
    }
}

pub fn apply<T: ByteLength>(v: &T, args: (usize, usize)) -> (r: Result<(), Error>)
    ensures
        match v.byte_length_check(args.0, args.1) {
            Ok(()) => r is Ok,
            Err(InvalidLength::Min) => fails_with(
                r,
                "byte length is lower than "@ + decimal(args.0 as nat),
            ),
            Err(InvalidLength::Max) => fails_with(
                r,
                "byte length is greater than "@ + decimal(args.1 as nat),
            ),
        },
{
    let (min, max) = args;
    match v.validate_byte_length(min, max) {
        Err(InvalidLength::Min) => {
            let mut m = String::new();
            push_str(&mut m, "byte length is lower than ");
            let n = min.describe();
            push_str(&mut m, n.as_str());
            Err(Error::new(m))
        },
        Err(InvalidLength::Max) => {
            let mut m = String::new();
            push_str(&mut m, "byte length is greater than ");
            let n = max.describe();
            push_str(&mut m, n.as_str());
            Err(Error::new(m))
        },
        Ok(()) => Ok(()),
    }
}

/// The rule with the messages of `i18n` in place of the english ones: on
/// failure, the message is one that `i18n`'s method for the rule returns
/// for the same arguments.
pub fn apply_in<T: ByteLength, H: I18n>(v: &T, args: (usize, usize), i18n: &H) -> (r: Result<(), Error>)
    ensures
        match v.byte_length_check(args.0, args.1) {
            Ok(()) => r is Ok,
            Err(InvalidLength::Min) => r matches Err(e) && e@.code is None && exists|m: Cow<'static, str>|
                call_ensures(H::length_lower_than, (i18n, args.0), m) && e@.message == m@,
            Err(InvalidLength::Max) => r matches Err(e) && e@.code is None && exists|m: Cow<'static, str>|
                call_ensures(H::length_greater_than, (i18n, args.1), m) && e@.message == m@,
        },
{
    let (min, max) = args;
    match v.validate_byte_length(min, max) {
        Err(InvalidLength::Min) => {
            let m = i18n.length_lower_than(min);
            Err(Error::new(m))
        },
        Err(InvalidLength::Max) => {
            let m = i18n.length_greater_than(max);
            Err(Error::new(m))
        },
        Ok(()) => Ok(()),
    }
}

pub trait ByteLength {
    /// The outcome of the rule for the bounds `min..=max`.
    spec fn byte_length_check(&self, min: usize, max: usize) -> Result<(), InvalidLength>;

    fn validate_byte_length(&self, min: usize, max: usize) -> (r: Result<(), InvalidLength>)
        ensures
            r == self.byte_length_check(min, max),
    ;
}

/// Containers with a known length counted in bytes.
pub trait HasByteLength {
    /// The number of bytes.
    spec fn bytes_in(&self) -> nat;

    fn byte_length(&self) -> (r: usize)
        ensures
            r == self.bytes_in(),
    ;
}

impl<T: HasByteLength> ByteLength for T {
    open spec fn byte_length_check(&self, min: usize, max: usize) -> Result<(), InvalidLength> {
        count_check(self.bytes_in(), min, max)
    }

    fn validate_byte_length(&self, min: usize, max: usize) -> (r: Result<(), InvalidLength>) {
        let len = self.byte_length();
        if len < min {
            Err(InvalidLength::Min)
        } else if len > max {
            Err(InvalidLength::Max)
        } else {
            Ok(())
        }
    }
}

impl<T: ByteLength> ByteLength for Option<T> {
    open spec fn byte_length_check(&self, min: usize, max: usize) -> Result<(), InvalidLength> {
        match self {
            Some(value) => value.byte_length_check(min, max),
            None => Ok(()),
        }
    }

    fn validate_byte_length(&self, min: usize, max: usize) -> (r: Result<(), InvalidLength>) {
        match self {
            Some(value) => value.validate_byte_length(min, max),
            None => Ok(()),
        }
    }
}

impl<T: AsByteSlice> HasByteLength for T {
    open spec fn bytes_in(&self) -> nat {
        self.byte_view().len()
    }

    fn byte_length(&self) -> (r: usize) {
        self.as_byte_slice().len()
    }
}

/// Types whose content can be borrowed as one byte slice.
pub trait AsByteSlice {
    /// The bytes of the value.
    spec fn byte_view(&self) -> Seq<u8>;

    fn as_byte_slice(&self) -> (r: &[u8])
        ensures
            r@ == self.byte_view(),
    ;
}

impl<'a> AsByteSlice for &'a [u8] {
    open spec fn byte_view(&self) -> Seq<u8> {
        (*self)@
    }

    fn as_byte_slice(&self) -> (r: &[u8]) {
        *self
    }
}

impl AsByteSlice for Vec<u8> {
    open spec fn byte_view(&self) -> Seq<u8> {
        self@
    }

    fn as_byte_slice(&self) -> (r: &[u8]) {
        self.as_slice()
    }
}

impl<const N: usize> AsByteSlice for [u8; N] {
    open spec fn byte_view(&self) -> Seq<u8> {
        self@
    }

    fn as_byte_slice(&self) -> (r: &[u8]) {
        self.as_slice()
    }
}

impl<T: AsStr> AsByteSlice for T {
    /// The UTF-8 encoding of the string.
    open spec fn byte_view(&self) -> Seq<u8> {
        vstd::utf8::encode_utf8(self.str_view())
    }

    fn as_byte_slice(&self) -> (r: &[u8]) {
        self.as_str().as_bytes()
    }
}

} // verus!
