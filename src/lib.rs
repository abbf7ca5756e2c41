//! Typed SQL predicates rendered into dialect-correct text with bound
//! parameter placeholders.
//!
//! A predicate tree is rendered once, depth-first, against a `SqlContext`:
//! each bound value is recorded and leaves an internal marker in the text. A
//! final pass replaces the markers with the adapter's placeholder tokens,
//! numbered after any explicit placeholders the caller declared.

pub mod value;
pub mod adapter;
pub mod sql;
pub mod expression;
pub mod predicate;
pub mod range;
pub mod group_by;
pub mod laws;
