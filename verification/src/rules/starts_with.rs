//! Validation that a named field starts with a given text.
use vstd::prelude::*;

use super::AsStr;
use crate::error::{fails_with, Error};
use crate::text::{owned, push_str, seq_starts_with, str_starts_with};

verus! {

/// Checks that `v` begins with `pat`; the error names the field.
pub fn validate<T: AsStr>(field_name: &str, v: T, pat: &str) -> (r: Result<(), Error>)
    ensures
        r is Ok <==> seq_starts_with(v.str_view(), pat@),
        !seq_starts_with(v.str_view(), pat@) ==> fails_with(
            r,
            field_name@ + " must start with "@ + pat@,
        ),
{
    if !str_starts_with(v.as_str(), pat) {
        let mut m = owned(field_name);
        push_str(&mut m, " must start with ");
        push_str(&mut m, pat);
        return Err(Error::new(m));
    }
    Ok(())
}

} // verus!
