//! The lowering relation.
//!
//! For every kind of node of the syntax tree, `lowers_to` says which node of
//! the reduced tree is its lowering. Nodes without a meaning at run time are
//! erased: `is_erased` holds of them and nothing is their lowering. A wrapper
//! that only carries a type lowers to whatever the expression inside it lowers
//! to.

pub mod program;
pub mod statement;
pub mod expression;
pub mod operator;
pub mod target;
pub mod pattern;
pub mod identifier;
pub mod literal;
pub mod module;
pub mod declaration;
