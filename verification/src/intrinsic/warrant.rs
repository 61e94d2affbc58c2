//! Trusted derivation rules for absolute witnesses.

use vstd::prelude::*;

use crate::witness::never_rejects;
use crate::witness::Witness;
use crate::witnessed::Witnessed;

verus! {

/// A derivation rule authorizing construction of `Witnessed<T, W>` without `W::attest`.
///
/// The rule's justification is the precondition of `warrant`: `W::verify` rejects no value
/// the derivation may produce. `Witnessed<T, W>` itself carries no fact in its type, so
/// callers establish the precondition from the contract of `W::verify` and what they know of
/// the values the derivation combines, for example the postcondition of `Witnessed::try_new`
/// at the place those values were constructed.
pub trait Warrant<T, W: Witness<T>> {
    /// Runs the derivation `f` once and wraps its result, unchanged, without checking it.
    fn warrant(f: impl FnOnce() -> T) -> (r: Witnessed<T, W>)
        requires
            f.requires(()),
            forall|out: T| f.ensures((), out) ==> never_rejects::<T, W>(out),
        ensures
            f.ensures((), r@),
            never_rejects::<T, W>(r@),
    {
        let out = f();
        Witnessed::new_unchecked(out)
    }
}

} // verus!
