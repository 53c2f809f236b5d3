//! Interactive helper for building a `git checkout -b` command from a
//! conventional-commit-style branch description.
//!
//! The library holds the deterministic core: the prefix catalog, the
//! branch-name and command derivation, and the decisions of a single run.
//! Terminal prompting and process spawning live outside it.

pub mod branch;
pub mod catalog;
pub mod runner;
