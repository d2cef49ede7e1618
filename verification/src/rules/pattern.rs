//! Pattern validation: the value matches a pattern.
//!
//! The pattern is any [`Matcher`]; [`RegexPattern`] provides one backed by
//! a regular expression of the `regex` crate.
//!
//! The entrypoint is the [`Pattern`] trait, implemented for every
//! `T: garde::rules::AsStr` and for `Option` of such a type.
use std::borrow::Cow;
use vstd::prelude::*;

use super::AsStr;
use crate::error::{fails_with, Error};
use crate::i18n::{DefaultI18n, I18n};
use crate::text::Describe;

verus! {

/// A pattern that can be searched for in a text.
pub trait Matcher: AsStr {
    /// Whether the pattern matches anywhere in `haystack`.
    spec fn matches_text(&self, haystack: Seq<char>) -> bool;

    /// Returns true if and only if there is a match for the pattern anywhere
    /// in the haystack given.
    fn is_match(&self, haystack: &str) -> (r: bool)
        ensures
            r == self.matches_text(haystack@),
    ;
}

pub fn apply<T: Pattern, M: Matcher>(v: &T, args: (&M,)) -> (r: Result<(), Error>)
    ensures
        r is Ok <==> pattern_passes(v.pattern_subject(), args.0),
        !pattern_passes(v.pattern_subject(), args.0) ==> fails_with(
            r,
            "does not match pattern /"@ + args.0.str_view() + "/"@,
        ),
{
    let pat = args.0;
    if !v.validate_pattern(pat) {
        let msg = DefaultI18n.pattern_no_match(pat.as_str());
        return Err(Error::new(msg));
    }
    Ok(())
}

/// The rule with the messages of `i18n` in place of the english ones: on
/// failure, the message is one that `i18n`'s method for the rule returns
/// for the same arguments.
pub fn apply_in<T: Pattern, M: Matcher, H: I18n>(v: &T, args: (&M,), i18n: &H) -> (r: Result<(), Error>)
    ensures
        r is Ok <==> pattern_passes(v.pattern_subject(), args.0),
        r matches Err(e) ==> e@.code is None && exists|t: &str, m: Cow<'static, str>|
            t@ == args.0.str_view() && call_ensures(H::pattern_no_match, (i18n, t), m)
                && e@.message == m@,
{
    let pat = args.0;
    if !v.validate_pattern(pat) {
        let t = pat.as_str();
        let m = i18n.pattern_no_match(t);
        return Err(Error::new(m));
    }
    Ok(())
}

/// Whether a value whose subject is `subject` passes for `matcher`: an absent
/// value always passes.
pub open spec fn pattern_passes<M: Matcher>(subject: Option<Seq<char>>, matcher: &M) -> bool {
    match subject {
        Some(h) => matcher.matches_text(h),
        None => true,
    }
}

pub trait Pattern {
    /// The text that the pattern is searched in, or `None` for an absent value.
    spec fn pattern_subject(&self) -> Option<Seq<char>>;

    fn validate_pattern<M: Matcher>(&self, matcher: &M) -> (r: bool)
        ensures
            r == pattern_passes(self.pattern_subject(), matcher),
    ;
}

impl<T: AsStr> Pattern for T {
    open spec fn pattern_subject(&self) -> Option<Seq<char>> {
        Some(self.str_view())
    }

    fn validate_pattern<M: Matcher>(&self, matcher: &M) -> (r: bool) {
        matcher.is_match(self.as_str())
    }
}

impl<T: Pattern> Pattern for Option<T> {
    open spec fn pattern_subject(&self) -> Option<Seq<char>> {
        match self {
            Some(value) => value.pattern_subject(),
            None => None,
        }
    }

    fn validate_pattern<M: Matcher>(&self, matcher: &M) -> (r: bool) {
        match self {
            Some(value) => value.validate_pattern(matcher),
            None => true,
        }
    }
}

/// A pattern wrapped for use where a pattern must be shareable; it reads
/// and matches exactly as the pattern it holds.
pub struct SyncWrapper<T>(T);

impl<T> SyncWrapper<T> {
    /// The pattern held.
    pub closed spec fn inner(&self) -> T {
        self.0
    }

    pub fn new(inner: T) -> (r: Self)
        ensures
            r.inner() == inner,
    {
        SyncWrapper(inner)
    }
}

impl<T: AsStr> AsStr for SyncWrapper<T> {
    open spec fn str_view(&self) -> Seq<char> {
        self.inner().str_view()
    }

    fn as_str(&self) -> (r: &str) {
        self.0.as_str()
    }
}

impl<T: Matcher> Matcher for SyncWrapper<T> {
    open spec fn matches_text(&self, haystack: Seq<char>) -> bool {
        self.inner().matches_text(haystack)
    }

    fn is_match(&self, haystack: &str) -> (r: bool) {
        self.0.is_match(haystack)
    }
}

#[verifier::external_type_specification]
#[verifier::external_body]
pub struct ExRegex(::regex::Regex);

/// Whether `::regex::Regex::new` accepts the pattern.
pub uninterp spec fn regex_compiles(pattern: Seq<char>) -> bool;

/// Whether the regular expression `pattern` matches anywhere in `haystack`,
/// as the `regex` crate decides it.
pub uninterp spec fn regex_is_match(pattern: Seq<char>, haystack: Seq<char>) -> bool;

/// A regular expression compiled by the `regex` crate, with its source text.
/// Only [`RegexPattern::new`] builds one, from the source it records.
pub struct RegexPattern {
    compiled: ::regex::Regex,
    source: Ghost<Seq<char>>,
}

/// Calls `::regex::Regex::new`; whether it succeeds is named
/// `regex_compiles`. The result records `pattern` as its source.
#[verifier::external_body]
fn compile_regex(pattern: &str) -> (r: Option<RegexPattern>)
    ensures
        r is Some <==> regex_compiles(pattern@),
        r is Some ==> r.unwrap().source() == pattern@,
{
    match ::regex::Regex::new(pattern) {
        Ok(compiled) => Some(RegexPattern { compiled, source: Ghost(pattern@) }),
        Err(_) => None,
    }
}

/// Calls `::regex::Regex::is_match`; its result is named `regex_is_match`
/// of the source the regex was compiled from.
#[verifier::external_body]
fn regex_match(re: &RegexPattern, haystack: &str) -> (r: bool)
    ensures
        r == regex_is_match(re.source(), haystack@),
{
    re.compiled.is_match(haystack)
}

/// Calls `::regex::Regex::as_str`, which returns the text the regex was
/// compiled from.
#[verifier::external_body]
fn regex_source(re: &RegexPattern) -> (r: &str)
    ensures
        r@ == re.source(),
{
    re.compiled.as_str()
}

impl RegexPattern {
    /// The text the regex was compiled from.
    pub closed spec fn source(&self) -> Seq<char> {
        self.source@
    }

    /// Compiles `pattern`, or returns `None` when it is not a valid regular
    /// expression.
    pub fn new(pattern: &str) -> (r: Option<RegexPattern>)
        ensures
            r is Some <==> regex_compiles(pattern@),
            r is Some ==> r.unwrap().source() == pattern@,
    {
        compile_regex(pattern)
    }
}

impl AsStr for RegexPattern {
    open spec fn str_view(&self) -> Seq<char> {
        self.source()
    }

    fn as_str(&self) -> (r: &str) {
        regex_source(self)
    }
}

impl Matcher for RegexPattern {
    open spec fn matches_text(&self, haystack: Seq<char>) -> bool {
        regex_is_match(self.source(), haystack)
    }

    fn is_match(&self, haystack: &str) -> (r: bool) {
        regex_match(self, haystack)
    }
}

} // verus!
