//! Contextual witnesses: facts about a value relative to an environment.

pub mod warrant_in;
pub mod witness_in;
pub mod witnessed_in;
pub mod witnessed_in_owned;

pub use crate::contextual::warrant_in::WarrantIn;
pub use crate::contextual::witness_in::WitnessIn;
pub use crate::contextual::witness_in::WitnessInExt;
pub use crate::contextual::witnessed_in::WitnessedIn;
pub use crate::contextual::witnessed_in_owned::WitnessedInOwned;
