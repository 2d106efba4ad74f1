//! Scope hoisting for one JavaScript module: an analysis that records the
//! module's import, export and CommonJS surface, and a rewrite that renames
//! every top-level binding so that many modules can share one scope.
pub mod ast;
pub mod text;
pub mod table;
pub mod diag;
pub mod matchers;
pub mod facts;
pub mod collect;
pub mod summary;
pub mod rewrite;
pub mod hoist;
pub mod laws;
