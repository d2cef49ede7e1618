//! IP address validation.
//!
//! The entrypoint is the [`Ip`] trait, implemented for every
//! `T: garde::rules::AsStr`.
use vstd::prelude::*;

use super::AsStr;
use crate::error::{fails_with, Error};
use crate::i18n::{DefaultI18n, I18n};
use crate::text::{owned, Describe};

verus! {

/// Which IP address family a value must belong to.
#[derive(Debug, Clone, Copy, PartialEq, Eq, Structural)]
pub enum IpKind {
    Any,
    V4,
    V6,
}

impl Describe for IpKind {
    open spec fn description(&self) -> Seq<char> {
        match self {
            IpKind::Any => "IP"@,
            IpKind::V4 => "IPv4"@,
            IpKind::V6 => "IPv6"@,
        }
    }

    fn describe(&self) -> (r: String) {
        match self {
            IpKind::Any => owned("IP"),
            IpKind::V4 => owned("IPv4"),
            IpKind::V6 => owned("IPv6"),
        }
    }
}

/// Whether `Ipv4Addr::from_str` accepts the text.
pub uninterp spec fn parses_as_ipv4(s: Seq<char>) -> bool;

/// Whether `Ipv6Addr::from_str` accepts the text.
pub uninterp spec fn parses_as_ipv6(s: Seq<char>) -> bool;

/// Whether `IpAddr::from_str` accepts the text: it parses an address that
/// is either IPv4 or IPv6.
pub open spec fn parses_as_ip(s: Seq<char>) -> bool {
    parses_as_ipv4(s) || parses_as_ipv6(s)
}

/// Calls `<Ipv4Addr as FromStr>::from_str` and tells whether it succeeded;
/// the outcome is named `parses_as_ipv4`.
#[verifier::external_body]
fn ipv4_parses(s: &str) -> (r: bool)
    ensures
        r == parses_as_ipv4(s@),
{
    s.parse::<core::net::Ipv4Addr>().is_ok()
}

/// Calls `<Ipv6Addr as FromStr>::from_str` and tells whether it succeeded;
/// the outcome is named `parses_as_ipv6`.
#[verifier::external_body]
fn ipv6_parses(s: &str) -> (r: bool)
    ensures
        r == parses_as_ipv6(s@),
{
    s.parse::<core::net::Ipv6Addr>().is_ok()
}

/// Calls `<IpAddr as FromStr>::from_str` and tells whether it succeeded,
/// which is when the text is an IPv4 or an IPv6 address (`parses_as_ip`).
#[verifier::external_body]
pub(crate) fn ip_parses(s: &str) -> (r: bool)
    ensures
        r == parses_as_ip(s@),
{
    s.parse::<core::net::IpAddr>().is_ok()
}

/// Whether the text is an address of the family `kind`.
pub open spec fn ip_holds(s: Seq<char>, kind: IpKind) -> bool {
    match kind {
        IpKind::Any => parses_as_ip(s),
        IpKind::V4 => parses_as_ipv4(s),
        IpKind::V6 => parses_as_ipv6(s),
    }
}

/// A text is an IP address of any family exactly when it is an IPv4 or an
/// IPv6 address.
pub proof fn any_ip_is_v4_or_v6<T: AsStr>(v: T)
    ensures
        v.ip_ok(IpKind::Any) == (v.ip_ok(IpKind::V4) || v.ip_ok(IpKind::V6)),
{
}

pub fn apply<T: Ip>(v: &T, args: (IpKind,)) -> (r: Result<(), Error>)
    ensures
        r is Ok <==> v.ip_ok(args.0),
        !v.ip_ok(args.0) ==> fails_with(r, "not a valid "@ + args.0.description() + " address"@),
{
    let kind = args.0;
    if v.validate_ip(kind).is_err() {
        let msg = DefaultI18n.ip_invalid(kind);
        return Err(Error::new(msg));
    }
    Ok(())
}

/// The rule with the messages of `i18n` in place of the english ones: on
/// failure, the message is one that `i18n`'s method for the rule returns
/// for the same arguments.
pub fn apply_in<T: Ip, H: I18n>(v: &T, args: (IpKind,), i18n: &H) -> (r: Result<(), Error>)
    ensures
        r is Ok <==> v.ip_ok(args.0),
        r matches Err(e) ==> e@.code is None && exists|m: std::borrow::Cow<'static, str>|
            call_ensures(H::ip_invalid, (i18n, args.0), m) && e@.message == m@,
{
    let kind = args.0;
    if v.validate_ip(kind).is_err() {
        let m = i18n.ip_invalid(kind);
        return Err(Error::new(m));
    }
    Ok(())
}

pub trait Ip {
    /// What a failed check returns.
    type Error;

    /// Whether the value is an address of the family `kind`.
    spec fn ip_ok(&self, kind: IpKind) -> bool;

    fn validate_ip(&self, kind: IpKind) -> (r: Result<(), Self::Error>)
        ensures
            r is Ok <==> self.ip_ok(kind),
    ;
}

impl<T: AsStr> Ip for T {
    type Error = ();

    open spec fn ip_ok(&self, kind: IpKind) -> bool {
        ip_holds(self.str_view(), kind)
    }

    fn validate_ip(&self, kind: IpKind) -> (r: Result<(), ()>) {
        let v = self.as_str();
        let ok = match kind {
            IpKind::Any => ip_parses(v),
            IpKind::V4 => ipv4_parses(v),
            IpKind::V6 => ipv6_parses(v),
        };
        if ok {
            Ok(())
        } else {
            Err(())
        }
    }
}

} // verus!
