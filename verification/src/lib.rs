//! A compile-time schema-mapping compiler for record insertion.
//!
//! Given a record model (an ordered list of field declarations) and a table
//! namespace (the set of column names of the target table), the compiler
//! derives, for every field, the column-assignment expression needed to build
//! an INSERT statement, and assembles the per-field expressions into two
//! complete insertion strategies: one that consumes the record by value
//! (owned) and one that accesses it by reference (borrowed).

pub mod classify;
pub mod compile;
pub mod eval;
pub mod laws;
pub mod model;
pub mod plan;
pub mod sqlite;
pub mod synth;
