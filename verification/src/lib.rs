//! Values that carry, in their type, a fact established for them at a construction boundary.
//!
//! `Witnessed<T, W>` wraps a `T` that crossed a boundary producing the witness token `W`;
//! `WitnessedIn` and `WitnessedInOwned` carry facts established relative to an environment.

pub mod contextual;
pub mod formatting;
pub mod intrinsic;
pub mod laws;
pub mod witness;
pub mod witness_ext;
pub mod witnessed;
pub mod witnessing;

pub use contextual::WarrantIn;
pub use contextual::WitnessIn;
pub use contextual::WitnessInExt;
pub use contextual::WitnessedIn;
pub use contextual::WitnessedInOwned;
pub use intrinsic::Warrant;
pub use witness::Witness;
pub use witness_ext::WitnessExt;
pub use witnessed::Witnessed;
pub use witnessing::Witnessing;
