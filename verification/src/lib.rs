//! The decision logic of the strategic advisor: consultation of a separate
//! model, the `consult_advisor` tool, and the advisor model pickers.

pub mod text;
pub mod snapshot;
pub mod effort;
pub mod consultation;
pub mod tool;
pub mod picker;
