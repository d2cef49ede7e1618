//! Validation rules. Each rule has an `apply` function and a trait that a
//! type implements to be usable with the rule.
use std::borrow::Cow;
use vstd::prelude::*;

pub mod alphanumeric;
pub mod ascii;
pub mod byte_length;
pub mod char_count;
pub mod contains;
pub mod credit_card;
pub mod email;
pub mod grapheme_count;
pub mod inner;
pub mod length;
pub mod pattern;
pub mod phone_number;
pub mod ip;
pub mod keys;
pub mod prefix;
pub mod range;
pub mod regex;
pub mod starts_with;
pub mod suffix;
pub mod url;

use self::alphanumeric::Alphanumeric;
use self::ascii::Ascii;
use self::byte_length::ByteLength;
use self::char_count::{CharCount, HasCharCount};
use self::contains::Contains;
use self::credit_card::CreditCard;
use self::grapheme_count::{GraphemeCount, HasGraphemeCount};
use self::length::utf16::Utf16CodeUnits;
use self::length::HasUtf16CodeUnits;
use self::pattern::Pattern;
use self::phone_number::PhoneNumber;
use self::prefix::Prefix;
use self::range::Bounds;
use self::suffix::Suffix;
use self::url::Url;

verus! {

/// Every rule works on `Option`: an absent value passes it, whatever the
/// rule's arguments; only a present value is checked.
pub proof fn absent_value_passes<T, B>(
    pat: Seq<char>,
    min: usize,
    max: usize,
    lower: B::Size,
    upper: B::Size,
) where
    T: AsStr + HasCharCount + HasGraphemeCount + HasUtf16CodeUnits,
    B: Bounds,

    ensures
        None::<T>.ascii_holds(),
        None::<T>.alphanumeric_holds(),
        None::<T>.contains_holds(pat),
        None::<T>.prefix_holds(pat),
        None::<T>.suffix_holds(pat),
        None::<T>.pattern_subject() is None,
        None::<T>.url_outcome() is Ok,
        None::<T>.credit_card_outcome() is Ok,
        None::<T>.phone_number_outcome() is Ok,
        None::<T>.byte_length_check(min, max) is Ok,
        None::<T>.char_count_check(min, max) is Ok,
        None::<T>.grapheme_count_check(min, max) is Ok,
        None::<T>.code_units_message(min, max) is None,
        None::<B>.bounds_check(lower, upper) is Ok,
{
}

/// String-like types whose whole content can be borrowed as one `&str`.
pub trait AsStr {
    /// The characters of the value.
    spec fn str_view(&self) -> Seq<char>;

    fn as_str(&self) -> (r: &str)
        ensures
            r@ == self.str_view(),
    ;
}

impl<'a> AsStr for &'a str {
    open spec fn str_view(&self) -> Seq<char> {
        (*self)@
    }

    fn as_str(&self) -> (r: &str) {
        *self
    }
}

impl AsStr for String {
    open spec fn str_view(&self) -> Seq<char> {
        self@
    }

    fn as_str(&self) -> (r: &str) {
        String::as_str(self)
    }
}

impl<'a> AsStr for Cow<'a, str> {
    open spec fn str_view(&self) -> Seq<char> {
        self@
    }

    fn as_str(&self) -> (r: &str) {
        match self {
            Cow::Borrowed(b) => *b,
            Cow::Owned(o) => o.as_str(),
        }
    }
}

} // verus!
