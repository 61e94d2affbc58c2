//! The builder returned by `value.witness()`.

use vstd::prelude::*;

use crate::witnessed::Witnessed;

verus! {

/// Intermediate builder holding the value to be witnessed.
pub struct Witnessing<T> {
    pub(crate) value: T,
}

impl<T> View for Witnessing<T> {
    type V = T;

    /// The value waiting to be witnessed.
    closed spec fn view(&self) -> T {
        self.value
    }
}

impl<T> Witnessing<T> {
    /// Crate-internal constructor of the builder.
    pub(crate) fn new(value: T) -> (r: Self)
        ensures
            r@ == value,
    {
        Witnessing { value }
    }

    /// Runs `prove` once on the value; if it produces a token, wraps the value, unchanged.
    ///
    /// The result is `Ok` exactly when `prove` returns `Ok`, and an error of `prove` is
    /// returned as it is.
    pub fn by<W, E>(self, prove: impl FnOnce(&T) -> Result<W, E>) -> (r: Result<Witnessed<T, W>, E>)
        requires
            prove.requires((&self@,)),
        ensures
            r matches Ok(w) ==> w@ == self@,
            r matches Ok(w) ==> exists|token: W| prove.ensures((&self@,), Ok::<W, E>(token)),
            r matches Err(e) ==> prove.ensures((&self@,), Err::<W, E>(e)),
    {
        match prove(&self.value) {
            Ok(_token) => Ok(Witnessed::new_unchecked(self.value)),
            Err(e) => Err(e),
        }
    }

    /// Wraps the value without producing or checking a witness token.
    ///
    /// The caller vouches that the value satisfies the fact that `W` stands for.
    pub fn by_unchecked<W>(self) -> (r: Witnessed<T, W>)
        ensures
            r@ == self@,
    {
        Witnessed::new_unchecked(self.value)
    }
}

} // verus!
