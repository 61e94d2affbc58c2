//! The witnessed wrapper: a `T` together with a type-level witness token `W`.

use vstd::prelude::*;
use vstd::std_specs::cmp::OrdSpec;
use vstd::std_specs::cmp::PartialEqSpec;
use vstd::std_specs::cmp::PartialEqSpecImpl;
use vstd::std_specs::cmp::PartialOrdSpec;
use vstd::std_specs::cmp::PartialOrdSpecImpl;

use crate::witness::accepts;
use crate::witness::Witness;

verus! {

/// A value of type `T` that crossed a boundary establishing the witness token `W` for it.
///
/// The token participates only in the type; at runtime the wrapper holds just the value.
pub struct Witnessed<T, W> {
    inner: T,
    marker: Ghost<W>,
}

impl<T, W> View for Witnessed<T, W> {
    type V = T;

    /// The wrapped value.
    closed spec fn view(&self) -> T {
        self.inner
    }
}

impl<T, W> Witnessed<T, W> {
    /// Consumes the wrapper and returns the value; the witness is no longer in the type.
    pub fn into_inner(self) -> (r: T)
        ensures
            r == self@,
    {
        self.inner
    }

    /// Crate-internal constructor: every public path to a `Witnessed` goes through a check
    /// or through an explicit, named bypass.
    pub(crate) fn new_unchecked(inner: T) -> (r: Self)
        ensures
            r@ == inner,
    {
        Witnessed { inner, marker: Ghost(arbitrary()) }
    }
}

impl<T, W: Witness<T>> Witnessed<T, W> {
    /// Runs `W::attest` on the value and wraps what it returns.
    ///
    /// On success the wrapped value is the (possibly normalized) value returned by
    /// `attest`, one that `W::verify` accepts; on failure `attest`'s error is returned.
    pub fn try_new(inner: T) -> (r: Result<Self, W::Error>)
        ensures
            r matches Ok(w) ==> accepts::<T, W>(w@),
            r matches Ok(w) ==> call_ensures(W::attest, (inner,), Ok::<T, W::Error>(w@)),
            r matches Err(e) ==> call_ensures(W::attest, (inner,), Err::<T, W::Error>(e)),
    {
        match W::attest(inner) {
            Ok(v) => Ok(Self::new_unchecked(v)),
            Err(e) => Err(e),
        }
    }
}

impl<T, W> core::ops::Deref for Witnessed<T, W> {
    type Target = T;

    fn deref(&self) -> (r: &T)
        ensures
            *r == self@,
    {
        &self.inner
    }
}

impl<T, W> AsRef<T> for Witnessed<T, W> {
    fn as_ref(&self) -> (r: &T)
        ensures
            *r == self@,
    {
        &self.inner
    }
}

impl<T: Clone, W> Clone for Witnessed<T, W> {
    /// Clones the value; the copy carries the same witness type.
    fn clone(&self) -> (r: Self)
        ensures
            cloned::<T>(self@, r@),
    {
        Self::new_unchecked(self.inner.clone())
    }
}

impl<T: Copy, W> Copy for Witnessed<T, W> {
}

impl<T: Unpin, W> Unpin for Witnessed<T, W> {
}

impl<T: core::panic::UnwindSafe, W> core::panic::UnwindSafe for Witnessed<T, W> {
}

impl<T: core::panic::RefUnwindSafe, W> core::panic::RefUnwindSafe for Witnessed<T, W> {
}

impl<T: PartialEq, W> PartialEq for Witnessed<T, W> {
    /// Answers as `T::eq` does on the two values; the witness type plays no part.
    fn eq(&self, other: &Self) -> (r: bool)
        ensures
            call_ensures(T::eq, (&self@, &other@), r),
    {
        self.inner.eq(&other.inner)
    }
}

impl<T: PartialEq, W> PartialEqSpecImpl for Witnessed<T, W> {
    open spec fn obeys_eq_spec() -> bool {
        T::obeys_eq_spec()
    }

    open spec fn eq_spec(&self, other: &Self) -> bool {
        self@.eq_spec(&other@)
    }
}

impl<T: Eq, W> Eq for Witnessed<T, W> {
}

impl<T: PartialOrd, W> PartialOrd for Witnessed<T, W> {
    /// Answers as `T::partial_cmp` does on the two values.
    fn partial_cmp(&self, other: &Self) -> (r: Option<core::cmp::Ordering>)
        ensures
            call_ensures(T::partial_cmp, (&self@, &other@), r),
    {
        self.inner.partial_cmp(&other.inner)
    }
}

impl<T: PartialOrd, W> PartialOrdSpecImpl for Witnessed<T, W> {
    open spec fn obeys_partial_cmp_spec() -> bool {
        T::obeys_partial_cmp_spec()
    }

    open spec fn partial_cmp_spec(&self, other: &Self) -> Option<core::cmp::Ordering> {
        self@.partial_cmp_spec(&other@)
    }
}

impl<T: Ord, W> Witnessed<T, W> {
    /// Orders two wrappers by their values alone, with `T::cmp`: the answer is one `T::cmp`
    /// gives on the two values and, where `T`'s comparison follows vstd's specification of
    /// `Ord`, it is that specified ordering.
    pub fn cmp_values(&self, other: &Self) -> (r: core::cmp::Ordering)
        ensures
            call_ensures(T::cmp, (&self@, &other@), r),
            T::obeys_cmp_spec() ==> r == self@.cmp_spec(&other@),
    {
        self.inner.cmp(&other.inner)
    }
}

impl<T: Ord, W> Ord for Witnessed<T, W> {
    /// Trusted: forwards to the verified `cmp_values`, whose contract is this one. It stays
    /// unverified only because the `Ord` impl of a wrapper cannot meet vstd's trait-level
    /// postcondition, which speaks of the wrapper's own uninterpreted `Ord` specification.
    #[verifier::external_body]
    fn cmp(&self, other: &Self) -> (r: core::cmp::Ordering)
        ensures
            call_ensures(T::cmp, (&self@, &other@), r),
            T::obeys_cmp_spec() ==> r == self@.cmp_spec(&other@),
    {
        self.cmp_values(other)
    }
}

impl<T: core::hash::Hash, W> core::hash::Hash for Witnessed<T, W> {
    /// Trusted: calls std's `Hash::hash` of `T` on the value alone (no witness token, no
    /// environment); no contract is stated.
    #[verifier::external_body]
    fn hash<H: core::hash::Hasher>(&self, state: &mut H) {
        self.inner.hash(state)
    }
}

impl<T: core::fmt::Debug, W> core::fmt::Debug for Witnessed<T, W> {
    /// Trusted: formats as `Witnessed(<value>)` with std's `Formatter::debug_tuple`, using
    /// `T`'s `Debug` for the value; no contract is stated.
    #[verifier::external_body]
    fn fmt(&self, f: &mut core::fmt::Formatter<'_>) -> core::fmt::Result {
        f.debug_tuple("Witnessed").field(&self.inner).finish()
    }
}

} // verus!
