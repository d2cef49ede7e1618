//! URL validation using the `url` crate.
//!
//! The entrypoint is the [`Url`] trait, implemented for every
//! `T: garde::rules::AsStr` and for `Option` of such a type.
use std::borrow::Cow;
use vstd::prelude::*;

use super::AsStr;
use crate::error::{fails_with, Error};
use crate::i18n::{DefaultI18n, I18n};
pub use crate::i18n::InvalidUrl;
use crate::text::Describe;

verus! {

/// The outcome of `url::Url::parse` on the text: `Ok` when it parses, else
/// the reason, with the error variants of the `url` crate mapped one to one
/// and any other error as `InvalidUrl::Other`.
pub uninterp spec fn url_parse_outcome(s: Seq<char>) -> Result<(), InvalidUrl>;

/// Calls `url::Url::parse`; its outcome is named `url_parse_outcome`.
#[verifier::external_body]
fn parse_url(s: &str) -> (r: Result<(), InvalidUrl>)
    ensures
        r == url_parse_outcome(s@),
{
    match url::Url::parse(s) {
        Ok(_) => Ok(()),
        Err(url::ParseError::EmptyHost) => Err(InvalidUrl::EmptyHost),
        Err(url::ParseError::IdnaError) => Err(InvalidUrl::IdnaError),
        Err(url::ParseError::InvalidPort) => Err(InvalidUrl::InvalidPort),
        Err(url::ParseError::InvalidIpv4Address) => Err(InvalidUrl::InvalidIpv4Address),
        Err(url::ParseError::InvalidIpv6Address) => Err(InvalidUrl::InvalidIpv6Address),
        Err(url::ParseError::InvalidDomainCharacter) => Err(InvalidUrl::InvalidDomainCharacter),
        Err(url::ParseError::RelativeUrlWithoutBase) => Err(InvalidUrl::RelativeUrlWithoutBase),
        Err(url::ParseError::RelativeUrlWithCannotBeABaseBase) => Err(InvalidUrl::RelativeUrlWithCannotBeABaseBase),
        Err(url::ParseError::SetHostOnCannotBeABaseUrl) => Err(InvalidUrl::SetHostOnCannotBeABaseUrl),
        Err(url::ParseError::Overflow) => Err(InvalidUrl::Overflow),
        Err(_) => Err(InvalidUrl::Other),
    }
}

pub fn apply<T: Url>(v: &T, args: ()) -> (r: Result<(), Error>)
    ensures
        match v.url_outcome() {
            Ok(()) => r is Ok,
            Err(e) => fails_with(r, "not a valid url: "@ + e.description()),
        },
{
    match v.validate_url() {
        Err(e) => {
            let msg = DefaultI18n.url_invalid(e);
            Err(Error::new(msg))
        },
        Ok(()) => Ok(()),
    }
}

/// The rule with the messages of `i18n` in place of the english ones: on
/// failure, the message is one that `i18n`'s method for the rule returns
/// for the same arguments.
pub fn apply_in<T: Url, H: I18n>(v: &T, args: (), i18n: &H) -> (r: Result<(), Error>)
    ensures
        r is Ok <==> v.url_outcome() is Ok,
        r matches Err(e) ==> e@.code is None && exists|m: Cow<'static, str>|
            call_ensures(H::url_invalid, (i18n, v.url_outcome()->Err_0), m) && e@.message == m@,
{
    match v.validate_url() {
        Err(reason) => {
            let m = i18n.url_invalid(reason);
            Err(Error::new(m))
        },
        Ok(()) => Ok(()),
    }
}

pub trait Url {
    /// The outcome of the check.
    spec fn url_outcome(&self) -> Result<(), InvalidUrl>;

    fn validate_url(&self) -> (r: Result<(), InvalidUrl>)
        ensures
            r == self.url_outcome(),
    ;
}

impl<T: AsStr> Url for T {
    open spec fn url_outcome(&self) -> Result<(), InvalidUrl> {
        url_parse_outcome(self.str_view())
    }

    fn validate_url(&self) -> (r: Result<(), InvalidUrl>) {
        parse_url(self.as_str())
    }
}

impl<T: Url> Url for Option<T> {
    open spec fn url_outcome(&self) -> Result<(), InvalidUrl> {
        match self {
            Some(value) => value.url_outcome(),
            None => Ok(()),
        }
    }

    fn validate_url(&self) -> (r: Result<(), InvalidUrl>) {
        match self {
            Some(value) => value.validate_url(),
            None => Ok(()),
        }
    }
}

} // verus!
