//! A value witnessed relative to a borrowed environment, which it keeps.

use vstd::prelude::*;
use vstd::std_specs::cmp::OrdSpec;
use vstd::std_specs::cmp::PartialEqSpec;
use vstd::std_specs::cmp::PartialEqSpecImpl;
use vstd::std_specs::cmp::PartialOrdSpec;
use vstd::std_specs::cmp::PartialOrdSpecImpl;

use crate::contextual::witness_in::accepts_in;
use crate::contextual::witness_in::WitnessIn;

verus! {

/// A value of type `T` that `W::verify_in` accepted relative to the environment `env` it
/// keeps a borrow of.
///
/// The relation is the type invariant: every constructor establishes it and no operation
/// changes the value or the environment afterwards.
pub struct WitnessedIn<'a, Env: ?Sized, T, W: WitnessIn<T, Env>> {
    env: &'a Env,
    inner: T,
    marker: Ghost<W>,
}

impl<'a, Env: ?Sized, T, W: WitnessIn<T, Env>> View for WitnessedIn<'a, Env, T, W> {
    type V = T;

    /// The witnessed value.
    closed spec fn view(&self) -> T {
        self.inner
    }
}

impl<'a, Env: ?Sized, T, W: WitnessIn<T, Env>> WitnessedIn<'a, Env, T, W> {
    /// The environment the value was witnessed against.
    pub closed spec fn env_spec(&self) -> &'a Env {
        self.env
    }

    /// The witnessed relation between the kept environment and the value.
    #[verifier::type_invariant]
    spec fn witnessed(&self) -> bool {
        accepts_in::<T, Env, W>(self.env_spec(), self@)
    }

    /// Checks `inner` with `W::verify_in(env, ..)` and, on success, wraps it with `env`.
    ///
    /// `verify_in` is called once; the result is `Ok` exactly when it answers `Ok`, and its
    /// error is returned as it is.
    pub fn try_new_in(env: &'a Env, inner: T) -> (r: Result<Self, W::Error>)
        ensures
            r matches Ok(w) ==> accepts_in::<T, Env, W>(env, inner),
            r matches Ok(w) ==> w@ == inner && w.env_spec() == env,
            r matches Err(e) ==> call_ensures(W::verify_in, (env, &inner), Err::<(), W::Error>(e)),
    {
        let checked = W::verify_in(env, &inner);
        match checked {
            Ok(_accepted) => {
                assert(checked == Ok::<(), W::Error>(()));
                Ok(Self::new_unchecked(env, inner))
            },
            Err(e) => Err(e),
        }
    }

    /// The environment the value was witnessed against.
    pub fn env(&self) -> (r: &'a Env)
        ensures
            r == self.env_spec(),
            accepts_in::<T, Env, W>(r, self@),
    {
        proof {
            use_type_invariant(self);
        }
        self.env
    }

    /// Consumes the wrapper and returns the value; the witness is no longer in the type.
    pub fn into_inner(self) -> (r: T)
        ensures
            r == self@,
            accepts_in::<T, Env, W>(self.env_spec(), r),
    {
        proof {
            use_type_invariant(&self);
        }
        self.inner
    }

    /// Consumes the wrapper and returns the environment and the value.
    pub fn into_parts(self) -> (r: (&'a Env, T))
        ensures
            r.0 == self.env_spec(),
            r.1 == self@,
            accepts_in::<T, Env, W>(r.0, r.1),
    {
        proof {
            use_type_invariant(&self);
        }
        (self.env, self.inner)
    }

    /// Crate-internal constructor, for values already known to satisfy the invariant.
    pub(crate) fn new_unchecked(env: &'a Env, inner: T) -> (r: Self)
        requires
            accepts_in::<T, Env, W>(env, inner),
        ensures
            r@ == inner,
            r.env_spec() == env,
    {
        WitnessedIn { env, inner, marker: Ghost(arbitrary()) }
    }
}

impl<'a, Env: ?Sized, T, W: WitnessIn<T, Env>> core::ops::Deref for WitnessedIn<'a, Env, T, W> {
    type Target = T;

    fn deref(&self) -> (r: &T)
        ensures
            *r == self@,
            accepts_in::<T, Env, W>(self.env_spec(), *r),
    {
        proof {
            use_type_invariant(self);
        }
        &self.inner
    }
}

impl<'a, Env: ?Sized, T, W: WitnessIn<T, Env>> AsRef<T> for WitnessedIn<'a, Env, T, W> {
    fn as_ref(&self) -> (r: &T)
        ensures
            *r == self@,
            accepts_in::<T, Env, W>(self.env_spec(), *r),
    {
        proof {
            use_type_invariant(self);
        }
        &self.inner
    }
}

impl<'a, Env: ?Sized, T: Copy, W: WitnessIn<T, Env>> Clone for WitnessedIn<'a, Env, T, W> {
    /// Copies the value and the environment borrow.
    fn clone(&self) -> (r: Self)
        ensures
            r@ == self@,
            r.env_spec() == self.env_spec(),
    {
        proof {
            use_type_invariant(self);
        }
        Self::new_unchecked(self.env, self.inner)
    }
}

impl<'a, Env: ?Sized, T: Copy, W: WitnessIn<T, Env>> Copy for WitnessedIn<'a, Env, T, W> {
}

impl<'a, Env: ?Sized, T: Unpin, W: WitnessIn<T, Env>> Unpin for WitnessedIn<'a, Env, T, W> {
}

impl<
    'a,
    Env: ?Sized + core::panic::RefUnwindSafe,
    T: core::panic::UnwindSafe,
    W: WitnessIn<T, Env>,
> core::panic::UnwindSafe for WitnessedIn<'a, Env, T, W> {
}

impl<
    'a,
    Env: ?Sized + core::panic::RefUnwindSafe,
    T: core::panic::RefUnwindSafe,
    W: WitnessIn<T, Env>,
> core::panic::RefUnwindSafe for WitnessedIn<'a, Env, T, W> {
}

impl<'a, Env: ?Sized, T: PartialEq, W: WitnessIn<T, Env>> PartialEq for WitnessedIn<'a, Env, T, W> {
    /// Answers as `T::eq` does on the two values; the environments play no part.
    fn eq(&self, other: &Self) -> (r: bool)
        ensures
            call_ensures(T::eq, (&self@, &other@), r),
    {
        self.inner.eq(&other.inner)
    }
}

impl<'a, Env: ?Sized, T: PartialEq, W: WitnessIn<T, Env>> PartialEqSpecImpl for WitnessedIn<'a, Env, T, W> {
    open spec fn obeys_eq_spec() -> bool {
        T::obeys_eq_spec()
    }

    open spec fn eq_spec(&self, other: &Self) -> bool {
        self@.eq_spec(&other@)
    }
}

impl<'a, Env: ?Sized, T: Eq, W: WitnessIn<T, Env>> Eq for WitnessedIn<'a, Env, T, W> {
}

impl<'a, Env: ?Sized, T: PartialOrd, W: WitnessIn<T, Env>> PartialOrd for WitnessedIn<'a, Env, T, W> {
    /// Answers as `T::partial_cmp` does on the two values.
    fn partial_cmp(&self, other: &Self) -> (r: Option<core::cmp::Ordering>)
        ensures
            call_ensures(T::partial_cmp, (&self@, &other@), r),
    {
        self.inner.partial_cmp(&other.inner)
    }
}

impl<'a, Env: ?Sized, T: PartialOrd, W: WitnessIn<T, Env>> PartialOrdSpecImpl for WitnessedIn<'a, Env, T, W> {
    open spec fn obeys_partial_cmp_spec() -> bool {
        T::obeys_partial_cmp_spec()
    }

    open spec fn partial_cmp_spec(&self, other: &Self) -> Option<core::cmp::Ordering> {
        self@.partial_cmp_spec(&other@)
    }
}

impl<'a, Env: ?Sized, T: Ord, W: WitnessIn<T, Env>> WitnessedIn<'a, Env, T, W> {
    /// Orders two wrappers by their values alone, with `T::cmp`: the answer is one `T::cmp`
    /// gives on the two values and, where `T`'s comparison follows vstd's specification of
    /// `Ord`, it is that specified ordering.
    pub fn cmp_values(&self, other: &Self) -> (r: core::cmp::Ordering)
        ensures
            call_ensures(T::cmp, (&self@, &other@), r),
            T::obeys_cmp_spec() ==> r == self@.cmp_spec(&other@),
    {
        self.inner.cmp(&other.inner)
    }
}

impl<'a, Env: ?Sized, T: Ord, W: WitnessIn<T, Env>> Ord for WitnessedIn<'a, Env, T, W> {
    /// Trusted: forwards to the verified `cmp_values`, whose contract is this one. It stays
    /// unverified only because the `Ord` impl of a wrapper cannot meet vstd's trait-level
    /// postcondition, which speaks of the wrapper's own uninterpreted `Ord` specification.
    #[verifier::external_body]
    fn cmp(&self, other: &Self) -> (r: core::cmp::Ordering)
        ensures
            call_ensures(T::cmp, (&self@, &other@), r),
            T::obeys_cmp_spec() ==> r == self@.cmp_spec(&other@),
    {
        self.cmp_values(other)
    }
}

impl<'a, Env: ?Sized, T: core::hash::Hash, W: WitnessIn<T, Env>> core::hash::Hash for WitnessedIn<'a, Env, T, W> {
    /// Trusted: calls std's `Hash::hash` of `T` on the value alone (no witness token, no
    /// environment); no contract is stated.
    #[verifier::external_body]
    fn hash<H: core::hash::Hasher>(&self, state: &mut H) {
        self.inner.hash(state)
    }
}

impl<'a, Env: ?Sized, T: core::fmt::Debug, W: WitnessIn<T, Env>> core::fmt::Debug for WitnessedIn<'a, Env, T, W> {
    /// Trusted: formats as `WitnessedIn(<value>)` with std's `Formatter::debug_tuple`, using
    /// `T`'s `Debug` for the value and leaving the environment out; no contract is stated.
    #[verifier::external_body]
    fn fmt(&self, f: &mut core::fmt::Formatter<'_>) -> core::fmt::Result {
        f.debug_tuple("WitnessedIn").field(&self.inner).finish()
    }
}

} // verus!
