//! A value witnessed relative to some environment of type `Env`, which it does not keep.

use vstd::prelude::*;
use vstd::std_specs::cmp::OrdSpec;
use vstd::std_specs::cmp::PartialEqSpec;
use vstd::std_specs::cmp::PartialEqSpecImpl;
use vstd::std_specs::cmp::PartialOrdSpec;
use vstd::std_specs::cmp::PartialOrdSpecImpl;

use crate::contextual::witness_in::accepts_in;
use crate::contextual::witness_in::WitnessIn;

verus! {

/// A value of type `T` that `W::verify_in` accepted relative to an environment of type `Env`
/// it was checked against.
///
/// Neither the environment nor a borrow of it is kept at runtime: the dependency on `Env` lives
/// in the type, and the environment itself is recorded for specifications only. Acceptance
/// relative to that recorded environment is the type invariant.
pub struct WitnessedInOwned<Env, T, W: WitnessIn<T, Env>> {
    inner: T,
    checked_against: Ghost<Env>,
    marker: Ghost<W>,
}

impl<Env, T, W: WitnessIn<T, Env>> View for WitnessedInOwned<Env, T, W> {
    type V = T;

    /// The witnessed value.
    closed spec fn view(&self) -> T {
        self.inner
    }
}

impl<Env, T, W: WitnessIn<T, Env>> WitnessedInOwned<Env, T, W> {
    /// The environment the value was checked against; it exists only in specifications.
    pub closed spec fn checked_env(&self) -> Env {
        self.checked_against@
    }

    /// The environment the value was checked against witnesses it.
    #[verifier::type_invariant]
    spec fn witnessed(&self) -> bool {
        accepts_in::<T, Env, W>(&self.checked_env(), self@)
    }

    /// Checks `inner` with `W::verify_in(env, ..)` and, on success, wraps it; the
    /// environment is used only for this check.
    ///
    /// `verify_in` is called once; the result is `Ok` exactly when it answers `Ok`, and its
    /// error is returned as it is.
    pub fn try_new_in(env: &Env, inner: T) -> (r: Result<Self, W::Error>)
        ensures
            r matches Ok(w) ==> accepts_in::<T, Env, W>(env, inner),
            r matches Ok(w) ==> w@ == inner && w.checked_env() == *env,
            r matches Err(e) ==> call_ensures(W::verify_in, (env, &inner), Err::<(), W::Error>(e)),
    {
        let checked = W::verify_in(env, &inner);
        match checked {
            Ok(_accepted) => {
                assert(checked == Ok::<(), W::Error>(()));
                Ok(Self::new_unchecked(env, inner))
            },
            Err(e) => Err(e),
        }
    }

    /// Consumes the wrapper and returns the value; the witness is no longer in the type.
    pub fn into_inner(self) -> (r: T)
        ensures
            r == self@,
            accepts_in::<T, Env, W>(&self.checked_env(), r),
    {
        proof {
            use_type_invariant(&self);
        }
        self.inner
    }

    /// Crate-internal constructor, for values known to satisfy the invariant under `env`.
    pub(crate) fn new_unchecked(env: &Env, inner: T) -> (r: Self)
        requires
            accepts_in::<T, Env, W>(env, inner),
        ensures
            r@ == inner,
            r.checked_env() == *env,
    {
        WitnessedInOwned { inner, checked_against: Ghost(*env), marker: Ghost(arbitrary()) }
    }
}

impl<Env, T, W: WitnessIn<T, Env>> core::ops::Deref for WitnessedInOwned<Env, T, W> {
    type Target = T;

    fn deref(&self) -> (r: &T)
        ensures
            *r == self@,
            accepts_in::<T, Env, W>(&self.checked_env(), *r),
    {
        proof {
            use_type_invariant(self);
        }
        &self.inner
    }
}

impl<Env, T, W: WitnessIn<T, Env>> AsRef<T> for WitnessedInOwned<Env, T, W> {
    fn as_ref(&self) -> (r: &T)
        ensures
            *r == self@,
            accepts_in::<T, Env, W>(&self.checked_env(), *r),
    {
        proof {
            use_type_invariant(self);
        }
        &self.inner
    }
}

impl<Env, T: Copy, W: WitnessIn<T, Env>> Clone for WitnessedInOwned<Env, T, W> {
    /// Copies the value.
    fn clone(&self) -> (r: Self)
        ensures
            r@ == self@,
            r.checked_env() == self.checked_env(),
    {
        proof {
            use_type_invariant(self);
        }
        WitnessedInOwned {
            inner: self.inner,
            checked_against: self.checked_against,
            marker: self.marker,
        }
    }
}

impl<Env, T: Copy, W: WitnessIn<T, Env>> Copy for WitnessedInOwned<Env, T, W> {
}

impl<Env, T: Unpin, W: WitnessIn<T, Env>> Unpin for WitnessedInOwned<Env, T, W> {
}

impl<Env, T: core::panic::UnwindSafe, W: WitnessIn<T, Env>> core::panic::UnwindSafe for WitnessedInOwned<
    Env,
    T,
    W,
> {
}

impl<Env, T: core::panic::RefUnwindSafe, W: WitnessIn<T, Env>> core::panic::RefUnwindSafe for WitnessedInOwned<
    Env,
    T,
    W,
> {
}

impl<Env, T: PartialEq, W: WitnessIn<T, Env>> PartialEq for WitnessedInOwned<Env, T, W> {
    /// Answers as `T::eq` does on the two values.
    fn eq(&self, other: &Self) -> (r: bool)
        ensures
            call_ensures(T::eq, (&self@, &other@), r),
    {
        self.inner.eq(&other.inner)
    }
}

impl<Env, T: PartialEq, W: WitnessIn<T, Env>> PartialEqSpecImpl for WitnessedInOwned<Env, T, W> {
    open spec fn obeys_eq_spec() -> bool {
        T::obeys_eq_spec()
    }

    open spec fn eq_spec(&self, other: &Self) -> bool {
        self@.eq_spec(&other@)
    }
}

impl<Env, T: Eq, W: WitnessIn<T, Env>> Eq for WitnessedInOwned<Env, T, W> {
}

impl<Env, T: PartialOrd, W: WitnessIn<T, Env>> PartialOrd for WitnessedInOwned<Env, T, W> {
    /// Answers as `T::partial_cmp` does on the two values.
    fn partial_cmp(&self, other: &Self) -> (r: Option<core::cmp::Ordering>)
        ensures
            call_ensures(T::partial_cmp, (&self@, &other@), r),
    {
        self.inner.partial_cmp(&other.inner)
    }
}

impl<Env, T: PartialOrd, W: WitnessIn<T, Env>> PartialOrdSpecImpl for WitnessedInOwned<Env, T, W> {
    open spec fn obeys_partial_cmp_spec() -> bool {
        T::obeys_partial_cmp_spec()
    }

    open spec fn partial_cmp_spec(&self, other: &Self) -> Option<core::cmp::Ordering> {
        self@.partial_cmp_spec(&other@)
    }
}

impl<Env, T: Ord, W: WitnessIn<T, Env>> WitnessedInOwned<Env, T, W> {
    /// Orders two wrappers by their values alone, with `T::cmp`: the answer is one `T::cmp`
    /// gives on the two values and, where `T`'s comparison follows vstd's specification of
    /// `Ord`, it is that specified ordering.
    pub fn cmp_values(&self, other: &Self) -> (r: core::cmp::Ordering)
        ensures
            call_ensures(T::cmp, (&self@, &other@), r),
            T::obeys_cmp_spec() ==> r == self@.cmp_spec(&other@),
    {
        self.inner.cmp(&other.inner)
    }
}

impl<Env, T: Ord, W: WitnessIn<T, Env>> Ord for WitnessedInOwned<Env, T, W> {
    /// Trusted: forwards to the verified `cmp_values`, whose contract is this one. It stays
    /// unverified only because the `Ord` impl of a wrapper cannot meet vstd's trait-level
    /// postcondition, which speaks of the wrapper's own uninterpreted `Ord` specification.
    #[verifier::external_body]
    fn cmp(&self, other: &Self) -> (r: core::cmp::Ordering)
        ensures
            call_ensures(T::cmp, (&self@, &other@), r),
            T::obeys_cmp_spec() ==> r == self@.cmp_spec(&other@),
    {
        self.cmp_values(other)
    }
}

impl<Env, T: core::hash::Hash, W: WitnessIn<T, Env>> core::hash::Hash for WitnessedInOwned<Env, T, W> {
    /// Trusted: calls std's `Hash::hash` of `T` on the value alone (no witness token, no
    /// environment); no contract is stated.
    #[verifier::external_body]
    fn hash<H: core::hash::Hasher>(&self, state: &mut H) {
        self.inner.hash(state)
    }
}

impl<Env, T: core::fmt::Debug, W: WitnessIn<T, Env>> core::fmt::Debug for WitnessedInOwned<Env, T, W> {
    /// Trusted: formats as `WitnessedInOwned(<value>)` with std's `Formatter::debug_tuple`,
    /// using `T`'s `Debug` for the value; no contract is stated.
    #[verifier::external_body]
    fn fmt(&self, f: &mut core::fmt::Formatter<'_>) -> core::fmt::Result {
        f.debug_tuple("WitnessedInOwned").field(&self.inner).finish()
    }
}

} // verus!
