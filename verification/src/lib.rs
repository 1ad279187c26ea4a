//! Lowering of a JavaScript and TypeScript syntax tree to a reduced tree.
//!
//! The syntax tree ([`ast`]) holds everything a parser saw. The reduced tree
//! ([`hir`]) holds only what has a meaning at run time: type annotations and
//! type-level declarations are gone, and markup, which later stages cannot
//! handle yet, is replaced by a placeholder. [`lower::AstLower`] builds the
//! reduced tree in one pass over the syntax tree.
//!
//! What the pass builds is fixed by a relation between the two trees
//! ([`relation`]); the laws that follow from it are proved in [`laws`]. A tree
//! can be lowered when it is well formed ([`valid`]).

pub mod source;
pub mod ast;
pub mod hir;
pub mod valid;
pub mod relation;
pub mod laws;
pub mod lower;
