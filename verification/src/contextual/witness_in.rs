//! The trait of witness tokens whose fact is relative to an environment.

use vstd::prelude::*;

use crate::contextual::witnessed_in::WitnessedIn;
use crate::contextual::witnessed_in_owned::WitnessedInOwned;

verus! {

/// A type-level witness for an invariant defined relative to an environment `Env`, decided
/// by `verify_in`.
///
/// `verify_in` is a pure decision of the invariant: it neither rewrites the input nor
/// mutates the environment, and it does not normalize.
pub trait WitnessIn<T, Env: ?Sized>: Sized {
    type Error;

    /// Decides the invariant relative to `env` without consuming or rewriting the input.
    fn verify_in(env: &Env, input: &T) -> Result<(), Self::Error>;
}

/// `W::verify_in` accepts `input` relative to `env`: `Ok(())` is an answer it gives on them.
///
/// This is what a call that returned `Ok` establishes.
pub open spec fn accepts_in<T, Env: ?Sized, W: WitnessIn<T, Env>>(env: &Env, input: T) -> bool {
    call_ensures(W::verify_in, (env, &input), Ok::<(), W::Error>(()))
}

/// `W::verify_in` never rejects `input` relative to `env`: every answer its contract allows on
/// them is `Ok`.
///
/// This is what a caller establishes from the contract of `W::verify_in` without calling it.
pub open spec fn never_rejects_in<T, Env: ?Sized, W: WitnessIn<T, Env>>(env: &Env, input: T) -> bool {
    forall|r: Result<(), W::Error>| call_ensures(W::verify_in, (env, &input), r) ==> r is Ok
}

/// The construction entry points of every contextual witness, as `W::witness_in_ref(..)` and
/// `W::witness_in_owned(..)`.
pub trait WitnessInExt<T, Env: ?Sized>: WitnessIn<T, Env> {
    /// Constructs a witnessed value that keeps a borrow of `env`.
    fn witness_in_ref<'a>(env: &'a Env, input: T) -> (r: Result<
        WitnessedIn<'a, Env, T, Self>,
        Self::Error,
    >)
        ensures
            r matches Ok(w) ==> w@ == input && w.env_spec() == env,
            r matches Ok(w) ==> accepts_in::<T, Env, Self>(env, input),
            r matches Err(e) ==> call_ensures(Self::verify_in, (env, &input), Err::<(), Self::Error>(e)),
    {
        WitnessedIn::<'a, Env, T, Self>::try_new_in(env, input)
    }

    /// Constructs a witnessed value whose type names `Env` but which keeps no environment.
    fn witness_in_owned(env: &Env, input: T) -> (r: Result<WitnessedInOwned<Env, T, Self>, Self::Error>)
        where
            Env: Sized,
        ensures
            r matches Ok(w) ==> w@ == input && w.checked_env() == *env,
            r matches Ok(w) ==> accepts_in::<T, Env, Self>(env, input),
            r matches Err(e) ==> call_ensures(Self::verify_in, (env, &input), Err::<(), Self::Error>(e)),
    {
        WitnessedInOwned::<Env, T, Self>::try_new_in(env, input)
    }
}

impl<T, Env: ?Sized, W: WitnessIn<T, Env>> WitnessInExt<T, Env> for W {
}

} // verus!
