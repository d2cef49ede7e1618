//! Range validation: a number lies in `min..=max`.
//!
//! The entrypoint is the [`Bounds`] trait, implemented for every primitive
//! integer type and for `Option` of such a type.
use std::borrow::Cow;
use vstd::prelude::*;

use crate::error::Error;
use crate::i18n::I18n;
use crate::text::{owned, push_str, Describe};

verus! {

/// Which bound a value is outside of.
#[derive(Debug, Clone, Copy, PartialEq, Eq, Structural)]
pub enum OutOfBounds {
    Lower,
    Upper,
}

/// `text` followed by the rendering of `bound`.
fn bound_message<S: Describe>(text: &str, bound: &S) -> (r: String)
    ensures
        r@ == text@ + bound.description(),
{
    let mut m = owned(text);
    let b = bound.describe();
    push_str(&mut m, b.as_str());
    m
}

/// Checks `v` against `min..=max`; a missing bound defaults to the extreme
/// value of the type.
pub fn apply<T: Bounds>(v: &T, args: (Option<T::Size>, Option<T::Size>)) -> (r: Result<(), Error>)
    ensures
        ({
            let min = match args.0 {
                Some(m) => m,
                None => T::spec_min(),
            };
            let max = match args.1 {
                Some(m) => m,
                None => T::spec_max(),
            };
            match v.bounds_check(min, max) {
                Ok(()) => r is Ok,
                Err(OutOfBounds::Lower) => r matches Err(e) && e@.code == Some("INVALID_SIZE"@)
                    && e@.message == "lower than "@ + min.description(),
                Err(OutOfBounds::Upper) => r matches Err(e) && e@.code == Some("EXCEEDS_SIZE"@)
                    && e@.message == "greater than "@ + max.description(),
            }
        }),
{
    let min = match args.0 {
        Some(m) => m,
        None => T::min_size(),
    };
    let max = match args.1 {
        Some(m) => m,
        None => T::max_size(),
    };
    match v.validate_bounds(min, max) {
        Err(OutOfBounds::Lower) => {
            let m = bound_message("lower than ", &min);
            Err(Error::new(m).with_code("INVALID_SIZE"))
        },
        Err(OutOfBounds::Upper) => {
            let m = bound_message("greater than ", &max);
            Err(Error::new(m).with_code("EXCEEDS_SIZE"))
        },
        Ok(()) => Ok(()),
    }
}

/// The rule with the messages of `i18n` in place of the english ones: on
/// failure, the message is one that `i18n`'s method for the bound returns
/// for the text of the bound; the codes are those of `apply`.
pub fn apply_in<T: Bounds, H: I18n>(
    v: &T,
    args: (Option<T::Size>, Option<T::Size>),
    i18n: &H,
) -> (r: Result<(), Error>)
    ensures
        ({
            let min = match args.0 {
                Some(m) => m,
                None => T::spec_min(),
            };
            let max = match args.1 {
                Some(m) => m,
                None => T::spec_max(),
            };
            match v.bounds_check(min, max) {
                Ok(()) => r is Ok,
                Err(OutOfBounds::Lower) => r matches Err(e) && e@.code == Some("INVALID_SIZE"@)
                    && exists|t: &str, m: Cow<'static, str>|
                    t@ == min.description() && call_ensures(H::range_lower_than, (i18n, t), m)
                        && e@.message == m@,
                Err(OutOfBounds::Upper) => r matches Err(e) && e@.code == Some("EXCEEDS_SIZE"@)
                    && exists|t: &str, m: Cow<'static, str>|
                    t@ == max.description() && call_ensures(H::range_greater_than, (i18n, t), m)
                        && e@.message == m@,
            }
        }),
{
    let min = match args.0 {
        Some(m) => m,
        None => T::min_size(),
    };
    let max = match args.1 {
        Some(m) => m,
        None => T::max_size(),
    };
    match v.validate_bounds(min, max) {
        Err(OutOfBounds::Lower) => {
            let text = min.describe();
            let m = i18n.range_lower_than(text.as_str());
            Err(Error::new(m).with_code("INVALID_SIZE"))
        },
        Err(OutOfBounds::Upper) => {
            let text = max.describe();
            let m = i18n.range_greater_than(text.as_str());
            Err(Error::new(m).with_code("EXCEEDS_SIZE"))
        },
        Ok(()) => Ok(()),
    }
}

/// The range rule accepts exactly the integers from the lower bound to the
/// upper bound, both included: below the lower bound it reports `Lower`,
/// and above the upper bound, but not below the lower one, `Upper`.
pub proof fn bounds_are_an_inclusive_range()
    ensures
        forall|v: u8, lo: u8, hi: u8|
            {
                &&& (#[trigger] v.bounds_check(lo, hi) is Ok <==> lo <= v && v <= hi)
                &&& (v.bounds_check(lo, hi) == Err::<(), OutOfBounds>(OutOfBounds::Lower) <==> v < lo)
                &&& (v.bounds_check(lo, hi) == Err::<(), OutOfBounds>(OutOfBounds::Upper) <==> lo <= v
                    && hi < v)
            },
        forall|v: u16, lo: u16, hi: u16|
            {
                &&& (#[trigger] v.bounds_check(lo, hi) is Ok <==> lo <= v && v <= hi)
                &&& (v.bounds_check(lo, hi) == Err::<(), OutOfBounds>(OutOfBounds::Lower) <==> v < lo)
                &&& (v.bounds_check(lo, hi) == Err::<(), OutOfBounds>(OutOfBounds::Upper) <==> lo <= v
                    && hi < v)
            },
        forall|v: u32, lo: u32, hi: u32|
            {
                &&& (#[trigger] v.bounds_check(lo, hi) is Ok <==> lo <= v && v <= hi)
                &&& (v.bounds_check(lo, hi) == Err::<(), OutOfBounds>(OutOfBounds::Lower) <==> v < lo)
                &&& (v.bounds_check(lo, hi) == Err::<(), OutOfBounds>(OutOfBounds::Upper) <==> lo <= v
                    && hi < v)
            },
        forall|v: u64, lo: u64, hi: u64|
            {
                &&& (#[trigger] v.bounds_check(lo, hi) is Ok <==> lo <= v && v <= hi)
                &&& (v.bounds_check(lo, hi) == Err::<(), OutOfBounds>(OutOfBounds::Lower) <==> v < lo)
                &&& (v.bounds_check(lo, hi) == Err::<(), OutOfBounds>(OutOfBounds::Upper) <==> lo <= v
                    && hi < v)
            },
        forall|v: usize, lo: usize, hi: usize|
            {
                &&& (#[trigger] v.bounds_check(lo, hi) is Ok <==> lo <= v && v <= hi)
                &&& (v.bounds_check(lo, hi) == Err::<(), OutOfBounds>(OutOfBounds::Lower) <==> v < lo)
                &&& (v.bounds_check(lo, hi) == Err::<(), OutOfBounds>(OutOfBounds::Upper) <==> lo <= v
                    && hi < v)
            },
        forall|v: u128, lo: u128, hi: u128|
            {
                &&& (#[trigger] v.bounds_check(lo, hi) is Ok <==> lo <= v && v <= hi)
                &&& (v.bounds_check(lo, hi) == Err::<(), OutOfBounds>(OutOfBounds::Lower) <==> v < lo)
                &&& (v.bounds_check(lo, hi) == Err::<(), OutOfBounds>(OutOfBounds::Upper) <==> lo <= v
                    && hi < v)
            },
        forall|v: i8, lo: i8, hi: i8|
            {
                &&& (#[trigger] v.bounds_check(lo, hi) is Ok <==> lo <= v && v <= hi)
                &&& (v.bounds_check(lo, hi) == Err::<(), OutOfBounds>(OutOfBounds::Lower) <==> v < lo)
                &&& (v.bounds_check(lo, hi) == Err::<(), OutOfBounds>(OutOfBounds::Upper) <==> lo <= v
                    && hi < v)
            },
        forall|v: i16, lo: i16, hi: i16|
            {
                &&& (#[trigger] v.bounds_check(lo, hi) is Ok <==> lo <= v && v <= hi)
                &&& (v.bounds_check(lo, hi) == Err::<(), OutOfBounds>(OutOfBounds::Lower) <==> v < lo)
                &&& (v.bounds_check(lo, hi) == Err::<(), OutOfBounds>(OutOfBounds::Upper) <==> lo <= v
                    && hi < v)
            },
        forall|v: i32, lo: i32, hi: i32|
            {
                &&& (#[trigger] v.bounds_check(lo, hi) is Ok <==> lo <= v && v <= hi)
                &&& (v.bounds_check(lo, hi) == Err::<(), OutOfBounds>(OutOfBounds::Lower) <==> v < lo)
                &&& (v.bounds_check(lo, hi) == Err::<(), OutOfBounds>(OutOfBounds::Upper) <==> lo <= v
                    && hi < v)
            },
        forall|v: i64, lo: i64, hi: i64|
            {
                &&& (#[trigger] v.bounds_check(lo, hi) is Ok <==> lo <= v && v <= hi)
                &&& (v.bounds_check(lo, hi) == Err::<(), OutOfBounds>(OutOfBounds::Lower) <==> v < lo)
                &&& (v.bounds_check(lo, hi) == Err::<(), OutOfBounds>(OutOfBounds::Upper) <==> lo <= v
                    && hi < v)
            },
        forall|v: isize, lo: isize, hi: isize|
            {
                &&& (#[trigger] v.bounds_check(lo, hi) is Ok <==> lo <= v && v <= hi)
                &&& (v.bounds_check(lo, hi) == Err::<(), OutOfBounds>(OutOfBounds::Lower) <==> v < lo)
                &&& (v.bounds_check(lo, hi) == Err::<(), OutOfBounds>(OutOfBounds::Upper) <==> lo <= v
                    && hi < v)
            },
        forall|v: i128, lo: i128, hi: i128|
            {
                &&& (#[trigger] v.bounds_check(lo, hi) is Ok <==> lo <= v && v <= hi)
                &&& (v.bounds_check(lo, hi) == Err::<(), OutOfBounds>(OutOfBounds::Lower) <==> v < lo)
                &&& (v.bounds_check(lo, hi) == Err::<(), OutOfBounds>(OutOfBounds::Upper) <==> lo <= v
                    && hi < v)
            },
{
}

pub trait Bounds {
    /// The type of the bounds.
    type Size: Copy + Describe;

    /// The bound used when no lower bound is given.
    spec fn spec_min() -> Self::Size;

    /// The bound used when no upper bound is given.
    spec fn spec_max() -> Self::Size;

    fn min_size() -> (r: Self::Size)
        ensures
            r == Self::spec_min(),
    ;

    fn max_size() -> (r: Self::Size)
        ensures
            r == Self::spec_max(),
    ;

    /// The outcome of the rule for the bounds `lower..=upper`.
    spec fn bounds_check(&self, lower: Self::Size, upper: Self::Size) -> Result<(), OutOfBounds>;

    fn validate_bounds(&self, lower: Self::Size, upper: Self::Size) -> (r: Result<(), OutOfBounds>)
        ensures
            r == self.bounds_check(lower, upper),
    ;
}

impl Bounds for u8 {
    type Size = u8;

    open spec fn spec_min() -> u8 {
        u8::MIN
    }

    open spec fn spec_max() -> u8 {
        u8::MAX
    }

    fn min_size() -> (r: u8) {
        u8::MIN
    }

    fn max_size() -> (r: u8) {
        u8::MAX
    }

    open spec fn bounds_check(&self, lower: u8, upper: u8) -> Result<(), OutOfBounds> {
        if *self < lower {
            Err(OutOfBounds::Lower)
        } else if *self > upper {
            Err(OutOfBounds::Upper)
        } else {
            Ok(())
        }
    }

    fn validate_bounds(&self, lower: u8, upper: u8) -> (r: Result<(), OutOfBounds>) {
        if *self < lower {
            Err(OutOfBounds::Lower)
        } else if *self > upper {
            Err(OutOfBounds::Upper)
        } else {
            Ok(())
        }
    }
}

impl Bounds for u16 {
    type Size = u16;

    open spec fn spec_min() -> u16 {
        u16::MIN
    }

    open spec fn spec_max() -> u16 {
        u16::MAX
    }

    fn min_size() -> (r: u16) {
        u16::MIN
    }

    fn max_size() -> (r: u16) {
        u16::MAX
    }

    open spec fn bounds_check(&self, lower: u16, upper: u16) -> Result<(), OutOfBounds> {
        if *self < lower {
            Err(OutOfBounds::Lower)
        } else if *self > upper {
            Err(OutOfBounds::Upper)
        } else {
            Ok(())
        }
    }

    fn validate_bounds(&self, lower: u16, upper: u16) -> (r: Result<(), OutOfBounds>) {
        if *self < lower {
            Err(OutOfBounds::Lower)
        } else if *self > upper {
            Err(OutOfBounds::Upper)
        } else {
            Ok(())
        }
    }
}

impl Bounds for u32 {
    type Size = u32;

    open spec fn spec_min() -> u32 {
        u32::MIN
    }

    open spec fn spec_max() -> u32 {
        u32::MAX
    }

    fn min_size() -> (r: u32) {
        u32::MIN
    }

    fn max_size() -> (r: u32) {
        u32::MAX
    }

    open spec fn bounds_check(&self, lower: u32, upper: u32) -> Result<(), OutOfBounds> {
        if *self < lower {
            Err(OutOfBounds::Lower)
        } else if *self > upper {
            Err(OutOfBounds::Upper)
        } else {
            Ok(())
        }
    }

    fn validate_bounds(&self, lower: u32, upper: u32) -> (r: Result<(), OutOfBounds>) {
        if *self < lower {
            Err(OutOfBounds::Lower)
        } else if *self > upper {
            Err(OutOfBounds::Upper)
        } else {
            Ok(())
        }
    }
}

impl Bounds for u64 {
    type Size = u64;

    open spec fn spec_min() -> u64 {
        u64::MIN
    }

    open spec fn spec_max() -> u64 {
        u64::MAX
    }

    fn min_size() -> (r: u64) {
        u64::MIN
    }

    fn max_size() -> (r: u64) {
        u64::MAX
    }

    open spec fn bounds_check(&self, lower: u64, upper: u64) -> Result<(), OutOfBounds> {
        if *self < lower {
            Err(OutOfBounds::Lower)
        } else if *self > upper {
            Err(OutOfBounds::Upper)
        } else {
            Ok(())
        }
    }

    fn validate_bounds(&self, lower: u64, upper: u64) -> (r: Result<(), OutOfBounds>) {
        if *self < lower {
            Err(OutOfBounds::Lower)
        } else if *self > upper {
            Err(OutOfBounds::Upper)
        } else {
            Ok(())
        }
    }
}

impl Bounds for usize {
    type Size = usize;

    open spec fn spec_min() -> usize {
        usize::MIN
    }

    open spec fn spec_max() -> usize {
        usize::MAX
    }

    fn min_size() -> (r: usize) {
        usize::MIN
    }

    fn max_size() -> (r: usize) {
        usize::MAX
    }

    open spec fn bounds_check(&self, lower: usize, upper: usize) -> Result<(), OutOfBounds> {
        if *self < lower {
            Err(OutOfBounds::Lower)
        } else if *self > upper {
            Err(OutOfBounds::Upper)
        } else {
            Ok(())
        }
    }

    fn validate_bounds(&self, lower: usize, upper: usize) -> (r: Result<(), OutOfBounds>) {
        if *self < lower {
            Err(OutOfBounds::Lower)
        } else if *self > upper {
            Err(OutOfBounds::Upper)
        } else {
            Ok(())
        }
    }
}

impl Bounds for u128 {
    type Size = u128;

    open spec fn spec_min() -> u128 {
        u128::MIN
    }

    open spec fn spec_max() -> u128 {
        u128::MAX
    }

    fn min_size() -> (r: u128) {
        u128::MIN
    }

    fn max_size() -> (r: u128) {
        u128::MAX
    }

    open spec fn bounds_check(&self, lower: u128, upper: u128) -> Result<(), OutOfBounds> {
        if *self < lower {
            Err(OutOfBounds::Lower)
        } else if *self > upper {
            Err(OutOfBounds::Upper)
        } else {
            Ok(())
        }
    }

    fn validate_bounds(&self, lower: u128, upper: u128) -> (r: Result<(), OutOfBounds>) {
        if *self < lower {
            Err(OutOfBounds::Lower)
        } else if *self > upper {
            Err(OutOfBounds::Upper)
        } else {
            Ok(())
        }
    }
}

impl Bounds for i8 {
    type Size = i8;

    open spec fn spec_min() -> i8 {
        i8::MIN
    }

    open spec fn spec_max() -> i8 {
        i8::MAX
    }

    fn min_size() -> (r: i8) {
        i8::MIN
    }

    fn max_size() -> (r: i8) {
        i8::MAX
    }

    open spec fn bounds_check(&self, lower: i8, upper: i8) -> Result<(), OutOfBounds> {
        if *self < lower {
            Err(OutOfBounds::Lower)
        } else if *self > upper {
            Err(OutOfBounds::Upper)
        } else {
            Ok(())
        }
    }

    fn validate_bounds(&self, lower: i8, upper: i8) -> (r: Result<(), OutOfBounds>) {
        if *self < lower {
            Err(OutOfBounds::Lower)
        } else if *self > upper {
            Err(OutOfBounds::Upper)
        } else {
            Ok(())
        }
    }
}

impl Bounds for i16 {
    type Size = i16;

    open spec fn spec_min() -> i16 {
        i16::MIN
    }

    open spec fn spec_max() -> i16 {
        i16::MAX
    }

    fn min_size() -> (r: i16) {
        i16::MIN
    }

    fn max_size() -> (r: i16) {
        i16::MAX
    }

    open spec fn bounds_check(&self, lower: i16, upper: i16) -> Result<(), OutOfBounds> {
        if *self < lower {
            Err(OutOfBounds::Lower)
        } else if *self > upper {
            Err(OutOfBounds::Upper)
        } else {
            Ok(())
        }
    }

    fn validate_bounds(&self, lower: i16, upper: i16) -> (r: Result<(), OutOfBounds>) {
        if *self < lower {
            Err(OutOfBounds::Lower)
        } else if *self > upper {
            Err(OutOfBounds::Upper)
        } else {
            Ok(())
        }
    }
}

impl Bounds for i32 {
    type Size = i32;

    open spec fn spec_min() -> i32 {
        i32::MIN
    }

    open spec fn spec_max() -> i32 {
        i32::MAX
    }

    fn min_size() -> (r: i32) {
        i32::MIN
    }

    fn max_size() -> (r: i32) {
        i32::MAX
    }

    open spec fn bounds_check(&self, lower: i32, upper: i32) -> Result<(), OutOfBounds> {
        if *self < lower {
            Err(OutOfBounds::Lower)
        } else if *self > upper {
            Err(OutOfBounds::Upper)
        } else {
            Ok(())
        }
    }

    fn validate_bounds(&self, lower: i32, upper: i32) -> (r: Result<(), OutOfBounds>) {
        if *self < lower {
            Err(OutOfBounds::Lower)
        } else if *self > upper {
            Err(OutOfBounds::Upper)
        } else {
            Ok(())
        }
    }
}

impl Bounds for i64 {
    type Size = i64;

    open spec fn spec_min() -> i64 {
        i64::MIN
    }

    open spec fn spec_max() -> i64 {
        i64::MAX
    }

    fn min_size() -> (r: i64) {
        i64::MIN
    }

    fn max_size() -> (r: i64) {
        i64::MAX
    }

    open spec fn bounds_check(&self, lower: i64, upper: i64) -> Result<(), OutOfBounds> {
        if *self < lower {
            Err(OutOfBounds::Lower)
        } else if *self > upper {
            Err(OutOfBounds::Upper)
        } else {
            Ok(())
        }
    }

    fn validate_bounds(&self, lower: i64, upper: i64) -> (r: Result<(), OutOfBounds>) {
        if *self < lower {
            Err(OutOfBounds::Lower)
        } else if *self > upper {
            Err(OutOfBounds::Upper)
        } else {
            Ok(())
        }
    }
}

impl Bounds for isize {
    type Size = isize;

    open spec fn spec_min() -> isize {
        isize::MIN
    }

    open spec fn spec_max() -> isize {
        isize::MAX
    }

    fn min_size() -> (r: isize) {
        isize::MIN
    }

    fn max_size() -> (r: isize) {
        isize::MAX
    }

    open spec fn bounds_check(&self, lower: isize, upper: isize) -> Result<(), OutOfBounds> {
        if *self < lower {
            Err(OutOfBounds::Lower)
        } else if *self > upper {
            Err(OutOfBounds::Upper)
        } else {
            Ok(())
        }
    }

    fn validate_bounds(&self, lower: isize, upper: isize) -> (r: Result<(), OutOfBounds>) {
        if *self < lower {
            Err(OutOfBounds::Lower)
        } else if *self > upper {
            Err(OutOfBounds::Upper)
        } else {
            Ok(())
        }
    }
}

impl Bounds for i128 {
    type Size = i128;

    open spec fn spec_min() -> i128 {
        i128::MIN
    }

    open spec fn spec_max() -> i128 {
        i128::MAX
    }

    fn min_size() -> (r: i128) {
        i128::MIN
    }

    fn max_size() -> (r: i128) {
        i128::MAX
    }

    open spec fn bounds_check(&self, lower: i128, upper: i128) -> Result<(), OutOfBounds> {
        if *self < lower {
            Err(OutOfBounds::Lower)
        } else if *self > upper {
            Err(OutOfBounds::Upper)
        } else {
            Ok(())
        }
    }

    fn validate_bounds(&self, lower: i128, upper: i128) -> (r: Result<(), OutOfBounds>) {
        if *self < lower {
            Err(OutOfBounds::Lower)
        } else if *self > upper {
            Err(OutOfBounds::Upper)
        } else {
            Ok(())
        }
    }
}

impl<T: Bounds> Bounds for Option<T> {
    type Size = T::Size;

    open spec fn spec_min() -> T::Size {
        T::spec_min()
    }

    open spec fn spec_max() -> T::Size {
        T::spec_max()
    }

    fn min_size() -> (r: T::Size) {
        T::min_size()
    }

    fn max_size() -> (r: T::Size) {
        T::max_size()
    }

    open spec fn bounds_check(&self, lower: T::Size, upper: T::Size) -> Result<(), OutOfBounds> {
        match self {
            Some(value) => value.bounds_check(lower, upper),
            None => Ok(()),
        }
    }

    fn validate_bounds(&self, lower: T::Size, upper: T::Size) -> (r: Result<(), OutOfBounds>) {
        match self {
            Some(value) => value.validate_bounds(lower, upper),
            None => Ok(()),
        }
    }
}

} // verus!
