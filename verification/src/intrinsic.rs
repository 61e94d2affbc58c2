//! Absolute witnesses: facts about a value alone.

pub mod warrant;

pub use crate::intrinsic::warrant::Warrant;
pub use crate::witness::Witness;
pub use crate::witnessed::Witnessed;
