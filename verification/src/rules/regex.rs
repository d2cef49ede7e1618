//! Validation of a named field against a regular expression.
use vstd::prelude::*;

use super::pattern::{regex_is_match, RegexPattern};
use super::AsStr;
use crate::error::{fails_with, Error};
use crate::text::{owned, push_str};

verus! {

/// Checks that `regex` matches somewhere in `v`; the error names the field.
pub fn validate<T: AsStr>(field_name: &str, v: T, regex: &RegexPattern) -> (r: Result<(), Error>)
    ensures
        r is Ok <==> regex_is_match(regex.source(), v.str_view()),
        !regex_is_match(regex.source(), v.str_view()) ==> fails_with(
            r,
            field_name@ + " is not valid according to the regular expression /"@ + regex.source()
                + "/"@,
        ),
{
    let text = v.as_str();
    if !crate::rules::pattern::Matcher::is_match(regex, text) {
        let mut m = owned(field_name);
        push_str(&mut m, " is not valid according to the regular expression /");
        push_str(&mut m, regex.as_str());
        push_str(&mut m, "/");
        return Err(Error::new(m));
    }
    Ok(())
}

} // verus!
