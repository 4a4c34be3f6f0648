//! Registry for constant expressions of a structured-language front end.
//!
//! Constant declarations may appear in any order and reference each other, so
//! analysis registers every constant expression in an arena-backed store and
//! threads stable handles through the rest of the syntax tree.  Repeated
//! passes transition each entry from unresolved to resolved (or to
//! unresolvable, with a diagnostic reason) without ever invalidating the
//! handle that other nodes hold.

pub mod ast;
pub mod index;
