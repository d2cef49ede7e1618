# garde

A validation library with verified contracts.

Rules (`src/rules/`) check single values and return an `Error` with an exact,
specified message; `Validate` implementations (`src/validate.rs`) run over a
whole structure and collect every error, with the `Path` at which it
occurred, into a `Report` (`src/error.rs`). The public functions state what
they return over mathematical views (`Seq`, `Map`, `nat`), and Verus proves
it; `inner::apply` and `keys::apply`, which only call a closure on each item
or key, state no result. Every rule whose message the `I18n` trait covers also has an `apply_in`
that takes the message from a given handler.

Where a rule relies on another crate (`url`, `regex`, `idna`,
`card-validate`, `phonenumber`, `unicode-segmentation`) or on the standard
library's address parsers, the call goes through a small trusted function
whose contract names the result; everything around it is verified.

`app/` holds what the verifier does not accept: the per-thread message
handler (`with_i18n`) and the rules that use it, asynchronous validation, closures that keep state,
and `Display` for the error types.
