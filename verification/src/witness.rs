//! The trait of witness tokens whose fact is an absolute property of the value.

use vstd::prelude::*;

use crate::witnessed::Witnessed;

verus! {

/// A type-level witness that can attest that a `T` satisfies the invariant decided by `verify`.
///
/// Implementors decide the invariant in `verify` and may override `attest` to normalize a
/// value before it is witnessed.
pub trait Witness<T>: Sized {
    type Error;

    /// Decides the invariant without consuming or rewriting the value.
    fn verify(input: &T) -> Result<(), Self::Error>;

    /// Validates and optionally normalizes the input; a value returned on success is one that
    /// `verify` accepts.
    ///
    /// By default no normalization takes place: `verify` is called once, the input comes back
    /// unchanged when it is accepted, and `verify`'s error is passed on otherwise.
    fn attest(input: T) -> (r: Result<T, Self::Error>)
        ensures
            r matches Ok(v) ==> call_ensures(Self::verify, (&v,), Ok::<(), Self::Error>(())),
        default_ensures
            r matches Ok(v) ==> v == input && call_ensures(Self::verify, (&input,), Ok::<(), Self::Error>(())),
            r matches Err(e) ==> call_ensures(Self::verify, (&input,), Err::<(), Self::Error>(e)),
    {
        let checked = Self::verify(&input);
        match checked {
            Ok(_accepted) => {
                assert(checked == Ok::<(), Self::Error>(()));
                Ok(input)
            },
            Err(e) => Err(e),
        }
    }

    /// Constructs a witnessed value from what `attest` returns.
    fn witness(input: T) -> (r: Result<Witnessed<T, Self>, Self::Error>)
        ensures
            r matches Ok(w) ==> call_ensures(Self::verify, (&w@,), Ok::<(), Self::Error>(())),
            r matches Ok(w) ==> call_ensures(Self::attest, (input,), Ok::<T, Self::Error>(w@)),
            r matches Err(e) ==> call_ensures(Self::attest, (input,), Err::<T, Self::Error>(e)),
    {
        match Self::attest(input) {
            Ok(v) => Ok(Witnessed::new_unchecked(v)),
            Err(e) => Err(e),
        }
    }
}

/// `W::verify` accepts `input`: `Ok(())` is an answer it gives on it.
///
/// This is what a call that returned `Ok` establishes.
pub open spec fn accepts<T, W: Witness<T>>(input: T) -> bool {
    call_ensures(W::verify, (&input,), Ok::<(), W::Error>(()))
}

/// `W::verify` never rejects `input`: every answer its contract allows on it is `Ok`.
///
/// This is what a caller establishes from the contract of `W::verify` without calling it.
pub open spec fn never_rejects<T, W: Witness<T>>(input: T) -> bool {
    forall|r: Result<(), W::Error>| call_ensures(W::verify, (&input,), r) ==> r is Ok
}

} // verus!
