//! Credit card validation using the `card_validate` crate.
//!
//! The entrypoint is the [`CreditCard`] trait, implemented for every
//! `T: garde::rules::AsStr` and for `Option` of such a type.
use std::borrow::Cow;
use vstd::prelude::*;

use super::AsStr;
use crate::error::{fails_with, Error};
use crate::i18n::{DefaultI18n, I18n};
pub use crate::i18n::InvalidCreditCard;
use crate::text::Describe;

verus! {

/// The outcome of `card_validate::Validate::from` on the text: `Ok` for a
/// valid number, else the reason, with the error variants of the crate
/// mapped one to one and any other error as `InvalidCreditCard::Other`.
pub uninterp spec fn card_outcome(number: Seq<char>) -> Result<(), InvalidCreditCard>;

/// Calls `card_validate::Validate::from`; its outcome is named `card_outcome`.
#[verifier::external_body]
fn validate_card_number(number: &str) -> (r: Result<(), InvalidCreditCard>)
    ensures
        r == card_outcome(number@),
{
    match card_validate::Validate::from(number) {
        Ok(_) => Ok(()),
        Err(card_validate::ValidateError::InvalidFormat) => Err(InvalidCreditCard::InvalidFormat),
        Err(card_validate::ValidateError::InvalidLength) => Err(InvalidCreditCard::InvalidLength),
        Err(card_validate::ValidateError::InvalidLuhn) => Err(InvalidCreditCard::InvalidLuhn),
        Err(card_validate::ValidateError::UnknownType) => Err(InvalidCreditCard::UnknownType),
        Err(_) => Err(InvalidCreditCard::Other),
    }
}

pub fn apply<T: CreditCard>(v: &T, args: ()) -> (r: Result<(), Error>)
    ensures
        match v.credit_card_outcome() {
            Ok(()) => r is Ok,
            Err(e) => fails_with(r, "not a valid credit card number: "@ + e.description()),
        },
{
    match v.validate_credit_card() {
        Err(reason) => {
            let msg = DefaultI18n.credit_card_invalid(reason);
            Err(Error::new(msg))
        },
        Ok(()) => Ok(()),
    }
}

/// The rule with the messages of `i18n` in place of the english ones: on
/// failure, the message is one that `i18n`'s method for the rule returns
/// for the same arguments.
pub fn apply_in<T: CreditCard, H: I18n>(v: &T, args: (), i18n: &H) -> (r: Result<(), Error>)
    ensures
        r is Ok <==> v.credit_card_outcome() is Ok,
        r matches Err(e) ==> e@.code is None && exists|m: Cow<'static, str>|
            call_ensures(H::credit_card_invalid, (i18n, v.credit_card_outcome()->Err_0), m) && e@.message == m@,
{
    match v.validate_credit_card() {
        Err(reason) => {
            let m = i18n.credit_card_invalid(reason);
            Err(Error::new(m))
        },
        Ok(()) => Ok(()),
    }
}

pub trait CreditCard {
    /// The outcome of the check.
    spec fn credit_card_outcome(&self) -> Result<(), InvalidCreditCard>;

    fn validate_credit_card(&self) -> (r: Result<(), InvalidCreditCard>)
        ensures
            r == self.credit_card_outcome(),
    ;
}

impl<T: AsStr> CreditCard for T {
    open spec fn credit_card_outcome(&self) -> Result<(), InvalidCreditCard> {
        card_outcome(self.str_view())
    }

    fn validate_credit_card(&self) -> (r: Result<(), InvalidCreditCard>) {
        validate_card_number(self.as_str())
    }
}

impl<T: CreditCard> CreditCard for Option<T> {
    open spec fn credit_card_outcome(&self) -> Result<(), InvalidCreditCard> {
        match self {
            Some(value) => value.credit_card_outcome(),
            None => Ok(()),
        }
    }

    fn validate_credit_card(&self) -> (r: Result<(), InvalidCreditCard>) {
        match self {
            Some(value) => value.validate_credit_card(),
            None => Ok(()),
        }
    }
}

} // verus!
