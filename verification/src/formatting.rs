//! Declarations that let the `Debug` impls of the wrappers name std's formatting types.

use vstd::prelude::*;

verus! {

/// std's `Formatter`, carried through opaquely by the `Debug` impls.
#[verifier::external_type_specification]
#[verifier::external_body]
pub struct ExFormatter<'a>(core::fmt::Formatter<'a>);

/// std's formatting error, the error type of `core::fmt::Result`.
#[verifier::external_type_specification]
#[verifier::external_body]
pub struct ExFmtError(core::fmt::Error);

} // verus!
