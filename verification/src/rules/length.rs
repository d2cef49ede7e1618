//! Length validation.
//!
//! The notion of length depends on the container; the submodules provide
//! the traits for each notion.
use vstd::prelude::*;

use crate::error::{fails_with, Error};
use crate::text::{decimal, push_str, Describe};

pub mod utf16;

pub use utf16::HasUtf16CodeUnits;

verus! {

/// The message of a length outside `min..=max`, or `None` when inside.
pub open spec fn length_message(len: nat, min: usize, max: usize) -> Option<Seq<char>> {
    if len < min {
        Some("length is lower than "@ + decimal(min as nat))
    } else if len > max {
        Some("length is greater than "@ + decimal(max as nat))
    } else {
        None
    }
}

/// Checks that `len` lies in `min..=max`.
pub fn check_len(len: usize, min: usize, max: usize) -> (r: Result<(), Error>)
    ensures
        match length_message(len as nat, min, max) {
            None => r is Ok,
            Some(m) => fails_with(r, m),
        },
{
    if len < min {
        let mut m = String::new();
        push_str(&mut m, "length is lower than ");
        let n = min.describe();
        push_str(&mut m, n.as_str());
        Err(Error::new(m))
    } else if len > max {
        let mut m = String::new();
        push_str(&mut m, "length is greater than ");
        let n = max.describe();
        push_str(&mut m, n.as_str());
        Err(Error::new(m))
    } else {
        Ok(())
    }
}

} // verus!
