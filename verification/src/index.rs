//! Index structures of the semantic analyzer.

pub mod const_expressions;
