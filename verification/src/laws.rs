//! What holds of every lowering.
//!
//! Each proof function here states one law of the lowering relation and proves
//! it from the definitions in [`crate::relation`]. Since every lowering
//! function ensures the relation, the laws hold of everything the pass builds.

pub mod list;
pub mod operator;
pub mod required;
pub mod span;
pub mod wrapper;
