//! String-like types whose length is counted in UTF-16 code units.
use std::borrow::Cow;
use std::rc::Rc;
use std::sync::Arc;
use vstd::prelude::*;

use super::length_message;
use crate::error::{fails_with, Error};
use crate::i18n::I18n;
use crate::text::chars_of;

verus! {

/// Number of UTF-16 code units that encode `c`: two for characters outside
/// the Basic Multilingual Plane, one otherwise.
pub open spec fn utf16_width(c: char) -> nat {
    if (c as u32) >= 0x10000 {
        2
    } else {
        1
    }
}

/// Number of UTF-16 code units that encode `s` (`str::encode_utf16().count()`).
pub open spec fn utf16_len(s: Seq<char>) -> nat
    decreases s.len(),
{
    if s.len() == 0 {
        0
    } else {
        utf16_width(s[0]) + utf16_len(s.drop_first())
    }
}

pub fn apply<T: Utf16CodeUnits>(v: &T, args: (usize, usize)) -> (r: Result<(), Error>)
    ensures
        match v.code_units_message(args.0, args.1) {
            None => r is Ok,
            Some(m) => fails_with(r, m),
        },
{
    v.validate_num_code_units(args.0, args.1)
}

/// The rule with the messages of `i18n` in place of the english ones: on
/// failure, the message is one that `i18n`'s length method returns for the
/// bound that was crossed.
pub fn apply_in<T: Utf16CodeUnits, H: I18n>(v: &T, args: (usize, usize), i18n: &H) -> (r: Result<(), Error>)
    ensures
        match v.code_units_count() {
            None => r is Ok,
            Some(n) => if n < args.0 {
                r matches Err(e) && e@.code is None && exists|m: Cow<'static, str>|
                    call_ensures(H::length_lower_than, (i18n, args.0), m) && e@.message == m@
            } else if n > args.1 {
                r matches Err(e) && e@.code is None && exists|m: Cow<'static, str>|
                    call_ensures(H::length_greater_than, (i18n, args.1), m) && e@.message == m@
            } else {
                r is Ok
            },
        },
{
    let (min, max) = args;
    match v.code_units() {
        None => Ok(()),
        Some(n) => {
            if n < min {
                let m = i18n.length_lower_than(min);
                Err(Error::new(m))
            } else if n > max {
                let m = i18n.length_greater_than(max);
                Err(Error::new(m))
            } else {
                Ok(())
            }
        },
    }
}

pub trait Utf16CodeUnits {
    /// The message of the rule's error for `min..=max`, or `None` when the
    /// value passes.
    spec fn code_units_message(&self, min: usize, max: usize) -> Option<Seq<char>>;

    fn validate_num_code_units(&self, min: usize, max: usize) -> (r: Result<(), Error>)
        ensures
            match self.code_units_message(min, max) {
                None => r is Ok,
                Some(m) => fails_with(r, m),
            },
    ;

    /// The number of UTF-16 code units, or `None` for an absent value.
    spec fn code_units_count(&self) -> Option<nat>;

    fn code_units(&self) -> (r: Option<usize>)
        ensures
            match self.code_units_count() {
                Some(n) => r == Some(n as usize) && n <= usize::MAX,
                None => r is None,
            },
    ;
}

impl<T: HasUtf16CodeUnits> Utf16CodeUnits for T {
    open spec fn code_units_message(&self, min: usize, max: usize) -> Option<Seq<char>> {
        length_message(self.code_units_in(), min, max)
    }

    fn validate_num_code_units(&self, min: usize, max: usize) -> (r: Result<(), Error>) {
        super::check_len(self.num_code_units(), min, max)
    }

    open spec fn code_units_count(&self) -> Option<nat> {
        Some(self.code_units_in())
    }

    fn code_units(&self) -> (r: Option<usize>) {
        Some(self.num_code_units())
    }
}

impl<T: Utf16CodeUnits> Utf16CodeUnits for Option<T> {
    open spec fn code_units_message(&self, min: usize, max: usize) -> Option<Seq<char>> {
        match self {
            Some(v) => v.code_units_message(min, max),
            None => None,
        }
    }

    fn validate_num_code_units(&self, min: usize, max: usize) -> (r: Result<(), Error>) {
        match self {
            Some(v) => v.validate_num_code_units(min, max),
            None => Ok(()),
        }
    }

    open spec fn code_units_count(&self) -> Option<nat> {
        match self {
            Some(v) => v.code_units_count(),
            None => None,
        }
    }

    fn code_units(&self) -> (r: Option<usize>) {
        match self {
            Some(v) => v.code_units(),
            None => None,
        }
    }
}

pub trait HasUtf16CodeUnits {
    /// The number of UTF-16 code units.
    spec fn code_units_in(&self) -> nat;

    fn num_code_units(&self) -> (r: usize)
        ensures
            r == self.code_units_in(),
    ;
}

/// The UTF-16 length of a text is the sum of its characters' lengths: none
/// for the empty text, one code unit for a character below U+10000 and two
/// for a character at or above it.
pub proof fn utf16_length_counts_code_units(s: Seq<char>, t: Seq<char>, c: char)
    ensures
        utf16_len(Seq::<char>::empty()) == 0,
        (c as u32) < 0x10000 ==> utf16_len(seq![c]) == 1,
        (c as u32) >= 0x10000 ==> utf16_len(seq![c]) == 2,
        utf16_len(s + t) == utf16_len(s) + utf16_len(t),
    decreases s.len(),
{
    assert(seq![c].drop_first() =~= Seq::<char>::empty());
    assert(utf16_len(Seq::<char>::empty()) == 0);
    assert(seq![c][0] == c);
    assert(utf16_len(seq![c]) == utf16_width(c) + utf16_len(seq![c].drop_first()));
    if s.len() == 0 {
        assert(s + t =~= t);
    } else {
        utf16_length_counts_code_units(s.drop_first(), t, c);
        assert((s + t).drop_first() =~= s.drop_first() + t);
    }
}

/// Every string type counts the UTF-16 code units of its text.
pub proof fn string_types_count_utf16_code_units<'a>(
    a: String,
    b: &'a String,
    c: &'a str,
    d: Cow<'a, str>,
    e: Rc<str>,
    f: Arc<str>,
    g: Box<str>,
)
    ensures
        a.code_units_in() == utf16_len(a@),
        b.code_units_in() == utf16_len(b@),
        c.code_units_in() == utf16_len(c@),
        d.code_units_in() == utf16_len(d@),
        e.code_units_in() == utf16_len((*e)@),
        f.code_units_in() == utf16_len((*f)@),
        g.code_units_in() == utf16_len((*g)@),
{
}

/// A string has no more UTF-16 code units than UTF-8 bytes.
proof fn lemma_utf16_len_le_utf8(s: Seq<char>)
    ensures
        utf16_len(s) <= vstd::utf8::encode_utf8(s).len(),
    decreases s.len(),
{
    if s.len() > 0 {
        lemma_utf16_len_le_utf8(s.drop_first());
        let v = s[0] as u32;
        assert(vstd::utf8::encode_scalar(v).len() >= utf16_width(s[0]));
    }
}

/// Number of UTF-16 code units of a string slice.
fn count_code_units(s: &str) -> (r: usize)
    ensures
        r == utf16_len(s@),
{
    let bytes = s.as_bytes().len();
    proof {
        lemma_utf16_len_le_utf8(s@);
    }
    let cs = chars_of(s);
    let mut total: usize = 0;
    let mut i: usize = 0;
    assert(s@.skip(0) =~= s@);
    while i < cs.len()
        invariant
            cs@ == s@,
            utf16_len(s@) <= bytes,
            i <= cs@.len(),
            total + utf16_len(s@.skip(i as int)) == utf16_len(s@),
        decreases cs@.len() - i,
    {
        assert(s@.skip(i as int).drop_first() =~= s@.skip(i + 1));
        if (cs[i] as u32) >= 0x10000 {
            total = total + 2;
        } else {
            total = total + 1;
        }
        i = i + 1;
    }
    total
}

impl HasUtf16CodeUnits for String {
    open spec fn code_units_in(&self) -> nat {
        utf16_len(self@)
    }

    fn num_code_units(&self) -> (r: usize) {
        count_code_units(self.as_str())
    }
}

impl<'a> HasUtf16CodeUnits for &'a String {
    open spec fn code_units_in(&self) -> nat {
        utf16_len((*self)@)
    }

    fn num_code_units(&self) -> (r: usize) {
        count_code_units(self.as_str())
    }
}

impl<'a> HasUtf16CodeUnits for &'a str {
    open spec fn code_units_in(&self) -> nat {
        utf16_len((*self)@)
    }

    fn num_code_units(&self) -> (r: usize) {
        count_code_units(*self)
    }
}

impl<'a> HasUtf16CodeUnits for Cow<'a, str> {
    open spec fn code_units_in(&self) -> nat {
        utf16_len(self@)
    }

    fn num_code_units(&self) -> (r: usize) {
        count_code_units(crate::rules::AsStr::as_str(self))
    }
}

impl HasUtf16CodeUnits for Rc<str> {
    open spec fn code_units_in(&self) -> nat {
        utf16_len((**self)@)
    }

    fn num_code_units(&self) -> (r: usize) {
        count_code_units(&**self)
    }
}

impl HasUtf16CodeUnits for Arc<str> {
    open spec fn code_units_in(&self) -> nat {
        utf16_len((**self)@)
    }

    fn num_code_units(&self) -> (r: usize) {
        count_code_units(&**self)
    }
}

impl HasUtf16CodeUnits for Box<str> {
    open spec fn code_units_in(&self) -> nat {
        utf16_len((**self)@)
    }

    fn num_code_units(&self) -> (r: usize) {
        count_code_units(&**self)
    }
}

} // verus!
