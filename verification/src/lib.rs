//! A validation library.
//!
//! Rules check single values and report [`Error`]s; [`Validate`]
//! implementations run the rules over a whole structure and collect every
//! error, with the [`Path`] at which it occurred, into a [`Report`].
use vstd::prelude::*;

pub mod async_validate;
pub mod error;
pub mod i18n;
pub mod rules;
pub mod text;
pub mod util;
pub mod validate;

pub use async_validate::AsyncUnvalidated;
pub use error::{Error, Path, Report};
pub use validate::{Unvalidated, Valid, Validate};

verus! {

/// The outcome of a single rule.
pub type Result = core::result::Result<(), Error>;

} // verus!
