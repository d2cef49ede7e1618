//! Phone number validation using the `phonenumber` crate.
//!
//! The entrypoint is the [`PhoneNumber`] trait, implemented for every
//! `T: garde::rules::AsStr` and for `Option` of such a type.
use std::borrow::Cow;
use vstd::prelude::*;

use super::AsStr;
use crate::error::{fails_with, Error};
use crate::i18n::{DefaultI18n, I18n};
pub use crate::i18n::InvalidPhoneNumber;
use crate::text::Describe;

verus! {

/// The outcome of `PhoneNumber::from_str` on the text: `Ok` when it parses,
/// else the parse error, mapped one to one onto [`InvalidPhoneNumber`].
pub uninterp spec fn phone_parse_outcome(s: Seq<char>) -> Result<(), InvalidPhoneNumber>;

/// Whether `PhoneNumber::is_valid` holds of the number parsed from the text.
pub uninterp spec fn phone_number_valid(s: Seq<char>) -> bool;

/// Calls `<phonenumber::PhoneNumber as FromStr>::from_str` and, on the parsed
/// number, `phonenumber::PhoneNumber::is_valid`. Whether and how parsing fails
/// is named `phone_parse_outcome`, the validity of the parsed number
/// `phone_number_valid`.
#[verifier::external_body]
fn parse_and_check_phone_number(s: &str) -> (r: Result<bool, InvalidPhoneNumber>)
    ensures
        r == (if phone_parse_outcome(s@) is Ok {
            Ok(phone_number_valid(s@))
        } else {
            Err(phone_parse_outcome(s@)->Err_0)
        }),
{
    match <phonenumber::PhoneNumber as std::str::FromStr>::from_str(s) {
        Ok(number) => Ok(number.is_valid()),
        Err(phonenumber::ParseError::NoNumber) => Err(InvalidPhoneNumber::NotANumber),
        Err(phonenumber::ParseError::InvalidCountryCode) => Err(InvalidPhoneNumber::InvalidCountryCode),
        Err(phonenumber::ParseError::TooShortAfterIdd) => Err(InvalidPhoneNumber::TooShortAfterIdd),
        Err(phonenumber::ParseError::TooShortNsn) => Err(InvalidPhoneNumber::TooShortNsn),
        Err(phonenumber::ParseError::TooLong) => Err(InvalidPhoneNumber::TooLong),
        Err(phonenumber::ParseError::MalformedInteger(_)) => Err(InvalidPhoneNumber::MalformedInteger),
    }
}

/// The outcome of the rule on the text `s`.
pub open spec fn phone_outcome(s: Seq<char>) -> Result<(), InvalidPhoneNumber> {
    match phone_parse_outcome(s) {
        Err(e) => Err(e),
        Ok(()) => if phone_number_valid(s) {
            Ok(())
        } else {
            Err(InvalidPhoneNumber::Invalid)
        },
    }
}

pub fn apply<T: PhoneNumber>(v: &T, args: ()) -> (r: Result<(), Error>)
    ensures
        match v.phone_number_outcome() {
            Ok(()) => r is Ok,
            Err(InvalidPhoneNumber::Invalid) => fails_with(r, "not a valid phone number"@),
            Err(e) => fails_with(r, "not a valid phone number: "@ + e.description()),
        },
{
    match v.validate_phone_number() {
        Err(reason) => {
            let msg = DefaultI18n.phone_number_invalid(reason);
            Err(Error::new(msg))
        },
        Ok(()) => Ok(()),
    }
}

/// The rule with the messages of `i18n` in place of the english ones: on
/// failure, the message is one that `i18n`'s method for the rule returns
/// for the same arguments.
pub fn apply_in<T: PhoneNumber, H: I18n>(v: &T, args: (), i18n: &H) -> (r: Result<(), Error>)
    ensures
        r is Ok <==> v.phone_number_outcome() is Ok,
        r matches Err(e) ==> e@.code is None && exists|m: Cow<'static, str>|
            call_ensures(H::phone_number_invalid, (i18n, v.phone_number_outcome()->Err_0), m) && e@.message == m@,
{
    match v.validate_phone_number() {
        Err(reason) => {
            let m = i18n.phone_number_invalid(reason);
            Err(Error::new(m))
        },
        Ok(()) => Ok(()),
    }
}

pub trait PhoneNumber {
    /// The outcome of the check.
    spec fn phone_number_outcome(&self) -> Result<(), InvalidPhoneNumber>;

    fn validate_phone_number(&self) -> (r: Result<(), InvalidPhoneNumber>)
        ensures
            r == self.phone_number_outcome(),
    ;
}

impl<T: AsStr> PhoneNumber for T {
    open spec fn phone_number_outcome(&self) -> Result<(), InvalidPhoneNumber> {
        phone_outcome(self.str_view())
    }

    fn validate_phone_number(&self) -> (r: Result<(), InvalidPhoneNumber>) {
        match parse_and_check_phone_number(self.as_str()) {
            Ok(true) => Ok(()),
            Ok(false) => Err(InvalidPhoneNumber::Invalid),
            Err(e) => Err(e),
        }
    }
}

impl<T: PhoneNumber> PhoneNumber for Option<T> {
    open spec fn phone_number_outcome(&self) -> Result<(), InvalidPhoneNumber> {
        match self {
            Some(value) => value.phone_number_outcome(),
            None => Ok(()),
        }
    }

    fn validate_phone_number(&self) -> (r: Result<(), InvalidPhoneNumber>) {
        match self {
            Some(value) => value.validate_phone_number(),
            None => Ok(()),
        }
    }
}

} // verus!
