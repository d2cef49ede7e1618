//! The asynchronous counterpart of [`Unvalidated`](crate::validate::Unvalidated).
use vstd::prelude::*;

use crate::error::Report;
use crate::validate::Valid;

verus! {

/// A value of `T` that may be invalid, to be validated asynchronously.
#[derive(Clone, Copy, Default)]
pub struct AsyncUnvalidated<T>(T);

impl<T> AsyncUnvalidated<T> {
    /// The wrapped value.
    pub closed spec fn value(self) -> T {
        self.0
    }

    /// Wraps `v`.
    pub fn new(v: T) -> (r: Self)
        ensures
            r.value() == v,
    {
        AsyncUnvalidated(v)
    }

    /// The value to be validated.
    pub fn inner(&self) -> (r: &T)
        ensures
            *r == self.value(),
    {
        &self.0
    }

    /// Turns the outcome of validating the value, meant to be what the
    /// asynchronous validation of [`Self::inner`] returned, into the result
    /// of the validation: the value marked valid when the outcome is
    /// `Ok(())`, else the report of the errors. The outcome is not checked
    /// here: given `Ok(())`, any value is marked valid.
    pub fn conclude(self, outcome: Result<(), Report>) -> (r: Result<Valid<T>, Report>)
        ensures
            match outcome {
                Ok(()) => r matches Ok(valid) && valid.value() == self.value(),
                Err(report) => r matches Err(out) && out@ == report@,
            },
    {
        match outcome {
            Ok(()) => Ok(Valid::validated(self.0)),
            Err(report) => Err(report),
        }
    }
}

impl<T> From<T> for AsyncUnvalidated<T> {
    fn from(value: T) -> (r: Self)
        ensures
            r.value() == value,
    {
        AsyncUnvalidated(value)
    }
}

impl<T> vstd::std_specs::convert::FromSpecImpl<T> for AsyncUnvalidated<T> {
    open spec fn obeys_from_spec() -> bool {
        true
    }

    closed spec fn from_spec(v: T) -> Self {
        AsyncUnvalidated(v)
    }
}

} // verus!
