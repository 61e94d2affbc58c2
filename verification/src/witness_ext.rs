//! The extension trait that starts a witnessing pipeline.

use vstd::prelude::*;

use crate::witnessing::Witnessing;

verus! {

/// Extension trait for starting a witnessing pipeline: `value.witness().by(prove)`.
pub trait WitnessExt: Sized {
    /// Moves the value into a `Witnessing` builder, unchanged.
    fn witness(self) -> (r: Witnessing<Self>)
        ensures
            r@ == self,
    {
        Witnessing::new(self)
    }
}

impl<T> WitnessExt for T {
}

} // verus!
