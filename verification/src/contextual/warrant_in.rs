//! Trusted derivation rules for contextual witnesses.

use vstd::prelude::*;

use crate::contextual::witness_in::accepts_in;
use crate::contextual::witness_in::never_rejects_in;
use crate::contextual::witness_in::WitnessIn;
use crate::contextual::witnessed_in::WitnessedIn;
use crate::contextual::witnessed_in_owned::WitnessedInOwned;

verus! {

/// A derivation rule authorizing construction of contextual witnessed values without
/// the witnessing check, relative to the same environment the inputs were checked against.
///
/// The rule's justification is the precondition of its constructors: relative to the `env`
/// passed in, `W::verify_in` rejects no value the derivation may produce. Callers establish it
/// from the contract of `W::verify_in`, typically with the facts carried by witnessed inputs
/// checked against the same environment.
pub trait WarrantIn<T, Env: ?Sized, W: WitnessIn<T, Env>> {
    /// Runs the derivation `f` once and wraps its result, unchanged, with `env`.
    ///
    /// The result is checked once with `W::verify_in`, as in a debug build; the precondition
    /// shows that the answer is `Ok`, and that answer is the acceptance the wrapper's type
    /// invariant records.
    fn warrant_in_ref<'a>(env: &'a Env, f: impl FnOnce() -> T) -> (r: WitnessedIn<'a, Env, T, W>)
        requires
            f.requires(()),
            forall|out: T| f.ensures((), out) ==> never_rejects_in::<T, Env, W>(env, out),
        ensures
            f.ensures((), r@),
            r.env_spec() == env,
    {
        let out = f();
        let checked = W::verify_in(env, &out);
        assert(checked == Ok::<(), W::Error>(())) by {
            assert(never_rejects_in::<T, Env, W>(env, out));
            assert(checked->Ok_0 == ());
        }
        WitnessedIn::new_unchecked(env, out)
    }

    /// Runs the derivation `f` once and wraps its result, unchanged; `env` is not kept.
    ///
    /// The result is checked once with `W::verify_in`, as in a debug build; the precondition
    /// shows that the answer is `Ok`, and that answer is the acceptance the wrapper's type
    /// invariant records.
    fn warrant_in_owned(env: &Env, f: impl FnOnce() -> T) -> (r: WitnessedInOwned<Env, T, W>)
        where
            Env: Sized,
        requires
            f.requires(()),
            forall|out: T| f.ensures((), out) ==> never_rejects_in::<T, Env, W>(env, out),
        ensures
            f.ensures((), r@),
            r.checked_env() == *env,
    {
        let out = f();
        let checked = W::verify_in(env, &out);
        assert(checked == Ok::<(), W::Error>(())) by {
            assert(never_rejects_in::<T, Env, W>(env, out));
            assert(checked->Ok_0 == ());
        }
        WitnessedInOwned::new_unchecked(env, out)
    }
}

} // verus!
