//! Error message texts.
//!
//! The [`I18n`] trait lists one method per message that a rule can produce;
//! [`DefaultI18n`] provides the english messages that the rules use.
use std::borrow::Cow;
use vstd::prelude::*;

use crate::text::{decimal, owned, push_str, Describe};

pub use crate::rules::ip::IpKind;

verus! {

/// Reasons an email value can fail to parse.
#[derive(Debug, Clone, Copy, PartialEq, Eq, Structural)]
#[non_exhaustive]
pub enum InvalidEmail {
    Empty,
    MissingAt,
    UserLengthExceeded,
    InvalidUser,
    DomainLengthExceeded,
    InvalidDomain,
}

impl Describe for InvalidEmail {
    open spec fn description(&self) -> Seq<char> {
        match self {
            InvalidEmail::Empty => "value is empty"@,
            InvalidEmail::MissingAt => "value is missing `@`"@,
            InvalidEmail::UserLengthExceeded => "user length exceeded maximum of 64 characters"@,
            InvalidEmail::InvalidUser => "user contains unexpected characters"@,
            InvalidEmail::DomainLengthExceeded => "domain length exceeded maximum of 255 characters"@,
            InvalidEmail::InvalidDomain => "domain contains unexpected characters"@,
        }
    }

    fn describe(&self) -> (r: String) {
        match self {
            InvalidEmail::Empty => owned("value is empty"),
            InvalidEmail::MissingAt => owned("value is missing `@`"),
            InvalidEmail::UserLengthExceeded => owned("user length exceeded maximum of 64 characters"),
            InvalidEmail::InvalidUser => owned("user contains unexpected characters"),
            InvalidEmail::DomainLengthExceeded => owned("domain length exceeded maximum of 255 characters"),
            InvalidEmail::InvalidDomain => owned("domain contains unexpected characters"),
        }
    }
}

/// Reasons a URL value can fail to parse.
#[derive(Debug, Clone, Copy, PartialEq, Eq, Structural)]
#[non_exhaustive]
pub enum InvalidUrl {
    EmptyHost,
    IdnaError,
    InvalidPort,
    InvalidIpv4Address,
    InvalidIpv6Address,
    InvalidDomainCharacter,
    RelativeUrlWithoutBase,
    RelativeUrlWithCannotBeABaseBase,
    SetHostOnCannotBeABaseUrl,
    Overflow,
    Other,
}

impl Describe for InvalidUrl {
    open spec fn description(&self) -> Seq<char> {
        match self {
            InvalidUrl::EmptyHost => "empty host"@,
            InvalidUrl::IdnaError => "invalid international domain name"@,
            InvalidUrl::InvalidPort => "invalid port number"@,
            InvalidUrl::InvalidIpv4Address => "invalid IPv4 address"@,
            InvalidUrl::InvalidIpv6Address => "invalid IPv6 address"@,
            InvalidUrl::InvalidDomainCharacter => "invalid domain character"@,
            InvalidUrl::RelativeUrlWithoutBase => "relative URL without a base"@,
            InvalidUrl::RelativeUrlWithCannotBeABaseBase => "relative URL with a cannot-be-a-base base"@,
            InvalidUrl::SetHostOnCannotBeABaseUrl => "a cannot-be-a-base URL doesn\u{2019}t have a host to set"@,
            InvalidUrl::Overflow => "URLs more than 4 GB are not supported"@,
            InvalidUrl::Other => "invalid url"@,
        }
    }

    fn describe(&self) -> (r: String) {
        match self {
            InvalidUrl::EmptyHost => owned("empty host"),
            InvalidUrl::IdnaError => owned("invalid international domain name"),
            InvalidUrl::InvalidPort => owned("invalid port number"),
            InvalidUrl::InvalidIpv4Address => owned("invalid IPv4 address"),
            InvalidUrl::InvalidIpv6Address => owned("invalid IPv6 address"),
            InvalidUrl::InvalidDomainCharacter => owned("invalid domain character"),
            InvalidUrl::RelativeUrlWithoutBase => owned("relative URL without a base"),
            InvalidUrl::RelativeUrlWithCannotBeABaseBase => owned("relative URL with a cannot-be-a-base base"),
            InvalidUrl::SetHostOnCannotBeABaseUrl => owned("a cannot-be-a-base URL doesn\u{2019}t have a host to set"),
            InvalidUrl::Overflow => owned("URLs more than 4 GB are not supported"),
            InvalidUrl::Other => owned("invalid url"),
        }
    }
}

/// Reasons a credit-card value can fail to validate.
#[derive(Debug, Clone, Copy, PartialEq, Eq, Structural)]
#[non_exhaustive]
pub enum InvalidCreditCard {
    InvalidFormat,
    InvalidLength,
    InvalidLuhn,
    UnknownType,
    Other,
}

impl Describe for InvalidCreditCard {
    open spec fn description(&self) -> Seq<char> {
        match self {
            InvalidCreditCard::InvalidFormat => "invalid format"@,
            InvalidCreditCard::InvalidLength => "invalid length"@,
            InvalidCreditCard::InvalidLuhn => "invalid luhn"@,
            InvalidCreditCard::UnknownType => "unknown type"@,
            InvalidCreditCard::Other => "invalid credit card"@,
        }
    }

    fn describe(&self) -> (r: String) {
        match self {
            InvalidCreditCard::InvalidFormat => owned("invalid format"),
            InvalidCreditCard::InvalidLength => owned("invalid length"),
            InvalidCreditCard::InvalidLuhn => owned("invalid luhn"),
            InvalidCreditCard::UnknownType => owned("unknown type"),
            InvalidCreditCard::Other => owned("invalid credit card"),
        }
    }
}

/// Reasons a phone-number value can fail to parse or validate.
#[derive(Debug, Clone, Copy, PartialEq, Eq, Structural)]
#[non_exhaustive]
pub enum InvalidPhoneNumber {
    /// The number was parsed successfully, but failed validation.
    Invalid,
    NotANumber,
    InvalidCountryCode,
    TooShortAfterIdd,
    TooShortNsn,
    TooLong,
    MalformedInteger,
    Other,
}

impl Describe for InvalidPhoneNumber {
    open spec fn description(&self) -> Seq<char> {
        match self {
            InvalidPhoneNumber::Invalid => "not a valid phone number"@,
            InvalidPhoneNumber::NotANumber => "not a number"@,
            InvalidPhoneNumber::InvalidCountryCode => "invalid country code"@,
            InvalidPhoneNumber::TooShortAfterIdd => "the number is too short after IDD"@,
            InvalidPhoneNumber::TooShortNsn => "the number is too short after the country code"@,
            InvalidPhoneNumber::TooLong => "the number is too long"@,
            InvalidPhoneNumber::MalformedInteger => "malformed integer part in phone number"@,
            InvalidPhoneNumber::Other => "invalid phone number"@,
        }
    }

    fn describe(&self) -> (r: String) {
        match self {
            InvalidPhoneNumber::Invalid => owned("not a valid phone number"),
            InvalidPhoneNumber::NotANumber => owned("not a number"),
            InvalidPhoneNumber::InvalidCountryCode => owned("invalid country code"),
            InvalidPhoneNumber::TooShortAfterIdd => owned("the number is too short after IDD"),
            InvalidPhoneNumber::TooShortNsn => owned("the number is too short after the country code"),
            InvalidPhoneNumber::TooLong => owned("the number is too long"),
            InvalidPhoneNumber::MalformedInteger => owned("malformed integer part in phone number"),
            InvalidPhoneNumber::Other => owned("invalid phone number"),
        }
    }
}

/// `a` followed by `b`.
fn text2(a: &str, b: &str) -> (r: String)
    ensures
        r@ == a@ + b@,
{
    let mut s = owned(a);
    push_str(&mut s, b);
    s
}

/// `a` followed by `b` followed by `c`.
fn text3(a: &str, b: &str, c: &str) -> (r: String)
    ensures
        r@ == a@ + b@ + c@,
{
    let mut s = owned(a);
    push_str(&mut s, b);
    push_str(&mut s, c);
    s
}

/// Provides the message of each error that the rules produce.
///
/// Implement it to give custom (for instance, messages in another language);
/// [`DefaultI18n`] gives the english ones.
pub trait I18n {
    /// Rule: `length`
    fn length_lower_than(&self, min: usize) -> Cow<'static, str>;

    /// Rule: `length`
    fn length_greater_than(&self, max: usize) -> Cow<'static, str>;

    /// Rule: `range`
    fn range_lower_than(&self, min: &str) -> Cow<'static, str>;

    /// Rule: `range`
    fn range_greater_than(&self, max: &str) -> Cow<'static, str>;

    /// Rule: `credit_card`
    fn credit_card_invalid(&self, reason: InvalidCreditCard) -> Cow<'static, str>;

    /// Rule: `pattern`
    fn pattern_no_match(&self, pattern: &str) -> Cow<'static, str>;

    /// Rule: `contains`
    fn contains_missing(&self, pattern: &str) -> Cow<'static, str>;

    /// Rule: `url`
    fn url_invalid(&self, reason: InvalidUrl) -> Cow<'static, str>;

    /// Rule: `prefix`
    fn prefix_missing(&self, pattern: &str) -> Cow<'static, str>;

    /// Rule: `suffix`
    fn suffix_missing(&self, pattern: &str) -> Cow<'static, str>;

    /// Rule: `phone_number`
    fn phone_number_invalid(&self, reason: InvalidPhoneNumber) -> Cow<'static, str>;

    /// Rule: `ip`
    fn ip_invalid(&self, kind: IpKind) -> Cow<'static, str>;

    /// Rule: `matches`
    fn matches_field_mismatch(&self, field: &str) -> Cow<'static, str>;

    /// Rule: `email`
    fn email_invalid(&self, reason: InvalidEmail) -> Cow<'static, str>;

    /// Rule: `ascii`
    fn ascii_invalid(&self) -> Cow<'static, str>;

    /// Rule: `alphanumeric`
    fn alphanumeric_invalid(&self) -> Cow<'static, str>;

    /// Rule: `required`
    fn required_not_set(&self) -> Cow<'static, str>;
}

/// A reference to a handler gives the messages of the handler: each method
/// returns what the same method of the referenced handler returns for the
/// same arguments.
impl<'a, T: I18n> I18n for &'a T {
    fn length_lower_than(&self, min: usize) -> (r: Cow<'static, str>)
        ensures
            call_ensures(T::length_lower_than, (*self, min), r),
    {
        (**self).length_lower_than(min)
    }

    fn length_greater_than(&self, max: usize) -> (r: Cow<'static, str>)
        ensures
            call_ensures(T::length_greater_than, (*self, max), r),
    {
        (**self).length_greater_than(max)
    }

    fn range_lower_than(&self, min: &str) -> (r: Cow<'static, str>)
        ensures
            call_ensures(T::range_lower_than, (*self, min), r),
    {
        (**self).range_lower_than(min)
    }

    fn range_greater_than(&self, max: &str) -> (r: Cow<'static, str>)
        ensures
            call_ensures(T::range_greater_than, (*self, max), r),
    {
        (**self).range_greater_than(max)
    }

    fn credit_card_invalid(&self, reason: InvalidCreditCard) -> (r: Cow<'static, str>)
        ensures
            call_ensures(T::credit_card_invalid, (*self, reason), r),
    {
        (**self).credit_card_invalid(reason)
    }

    fn pattern_no_match(&self, pattern: &str) -> (r: Cow<'static, str>)
        ensures
            call_ensures(T::pattern_no_match, (*self, pattern), r),
    {
        (**self).pattern_no_match(pattern)
    }

    fn contains_missing(&self, pattern: &str) -> (r: Cow<'static, str>)
        ensures
            call_ensures(T::contains_missing, (*self, pattern), r),
    {
        (**self).contains_missing(pattern)
    }

    fn url_invalid(&self, reason: InvalidUrl) -> (r: Cow<'static, str>)
        ensures
            call_ensures(T::url_invalid, (*self, reason), r),
    {
        (**self).url_invalid(reason)
    }

    fn prefix_missing(&self, pattern: &str) -> (r: Cow<'static, str>)
        ensures
            call_ensures(T::prefix_missing, (*self, pattern), r),
    {
        (**self).prefix_missing(pattern)
    }

    fn suffix_missing(&self, pattern: &str) -> (r: Cow<'static, str>)
        ensures
            call_ensures(T::suffix_missing, (*self, pattern), r),
    {
        (**self).suffix_missing(pattern)
    }

    fn phone_number_invalid(&self, reason: InvalidPhoneNumber) -> (r: Cow<'static, str>)
        ensures
            call_ensures(T::phone_number_invalid, (*self, reason), r),
    {
        (**self).phone_number_invalid(reason)
    }

    fn ip_invalid(&self, kind: IpKind) -> (r: Cow<'static, str>)
        ensures
            call_ensures(T::ip_invalid, (*self, kind), r),
    {
        (**self).ip_invalid(kind)
    }

    fn matches_field_mismatch(&self, field: &str) -> (r: Cow<'static, str>)
        ensures
            call_ensures(T::matches_field_mismatch, (*self, field), r),
    {
        (**self).matches_field_mismatch(field)
    }

    fn email_invalid(&self, reason: InvalidEmail) -> (r: Cow<'static, str>)
        ensures
            call_ensures(T::email_invalid, (*self, reason), r),
    {
        (**self).email_invalid(reason)
    }

    fn ascii_invalid(&self) -> (r: Cow<'static, str>)
        ensures
            call_ensures(T::ascii_invalid, (*self,), r),
    {
        (**self).ascii_invalid()
    }

    fn alphanumeric_invalid(&self) -> (r: Cow<'static, str>)
        ensures
            call_ensures(T::alphanumeric_invalid, (*self,), r),
    {
        (**self).alphanumeric_invalid()
    }

    fn required_not_set(&self) -> (r: Cow<'static, str>)
        ensures
            call_ensures(T::required_not_set, (*self,), r),
    {
        (**self).required_not_set()
    }
}

/// The english error messages.
pub struct DefaultI18n;

impl I18n for DefaultI18n {
    fn length_lower_than(&self, min: usize) -> (r: Cow<'static, str>)
        ensures
            r@ == "length is lower than "@ + decimal(min as nat),
    {
        let n = min.describe();
        Cow::Owned(text2("length is lower than ", n.as_str()))
    }

    fn length_greater_than(&self, max: usize) -> (r: Cow<'static, str>)
        ensures
            r@ == "length is greater than "@ + decimal(max as nat),
    {
        let n = max.describe();
        Cow::Owned(text2("length is greater than ", n.as_str()))
    }

    fn range_lower_than(&self, min: &str) -> (r: Cow<'static, str>)
        ensures
            r@ == "lower than "@ + min@,
    {
        Cow::Owned(text2("lower than ", min))
    }

    fn range_greater_than(&self, max: &str) -> (r: Cow<'static, str>)
        ensures
            r@ == "greater than "@ + max@,
    {
        Cow::Owned(text2("greater than ", max))
    }

    fn credit_card_invalid(&self, reason: InvalidCreditCard) -> (r: Cow<'static, str>)
        ensures
            r@ == "not a valid credit card number: "@ + reason.description(),
    {
        let t = reason.describe();
        Cow::Owned(text2("not a valid credit card number: ", t.as_str()))
    }

    fn pattern_no_match(&self, pattern: &str) -> (r: Cow<'static, str>)
        ensures
            r@ == "does not match pattern /"@ + pattern@ + "/"@,
    {
        Cow::Owned(text3("does not match pattern /", pattern, "/"))
    }

    fn contains_missing(&self, pattern: &str) -> (r: Cow<'static, str>)
        ensures
            r@ == "does not contain \""@ + pattern@ + "\""@,
    {
        Cow::Owned(text3("does not contain \"", pattern, "\""))
    }

    fn url_invalid(&self, reason: InvalidUrl) -> (r: Cow<'static, str>)
        ensures
            r@ == "not a valid url: "@ + reason.description(),
    {
        let t = reason.describe();
        Cow::Owned(text2("not a valid url: ", t.as_str()))
    }

    fn prefix_missing(&self, pattern: &str) -> (r: Cow<'static, str>)
        ensures
            r@ == "value does not begin with \""@ + pattern@ + "\""@,
    {
        Cow::Owned(text3("value does not begin with \"", pattern, "\""))
    }

    fn suffix_missing(&self, pattern: &str) -> (r: Cow<'static, str>)
        ensures
            r@ == "does not end with \""@ + pattern@ + "\""@,
    {
        Cow::Owned(text3("does not end with \"", pattern, "\""))
    }

    fn phone_number_invalid(&self, reason: InvalidPhoneNumber) -> (r: Cow<'static, str>)
        ensures
            r@ == (if reason == InvalidPhoneNumber::Invalid {
                "not a valid phone number"@
            } else {
                "not a valid phone number: "@ + reason.description()
            }),
    {
        match reason {
            InvalidPhoneNumber::Invalid => Cow::Borrowed("not a valid phone number"),
            _ => {
                let t = reason.describe();
                Cow::Owned(text2("not a valid phone number: ", t.as_str()))
            },
        }
    }

    fn ip_invalid(&self, kind: IpKind) -> (r: Cow<'static, str>)
        ensures
            r@ == "not a valid "@ + kind.description() + " address"@,
    {
        let t = kind.describe();
        Cow::Owned(text3("not a valid ", t.as_str(), " address"))
    }

    fn matches_field_mismatch(&self, field: &str) -> (r: Cow<'static, str>)
        ensures
            r@ == "does not match "@ + field@ + " field"@,
    {
        Cow::Owned(text3("does not match ", field, " field"))
    }

    fn email_invalid(&self, reason: InvalidEmail) -> (r: Cow<'static, str>)
        ensures
            r@ == "not a valid email: "@ + reason.description(),
    {
        let t = reason.describe();
        Cow::Owned(text2("not a valid email: ", t.as_str()))
    }

    fn ascii_invalid(&self) -> (r: Cow<'static, str>)
        ensures
            r@ == "not ascii"@,
    {
        Cow::Borrowed("not ascii")
    }

    fn alphanumeric_invalid(&self) -> (r: Cow<'static, str>)
        ensures
            r@ == "not alphanumeric"@,
    {
        Cow::Borrowed("not alphanumeric")
    }

    fn required_not_set(&self) -> (r: Cow<'static, str>)
        ensures
            r@ == "not set"@,
    {
        Cow::Borrowed("not set")
    }
}

} // verus!
