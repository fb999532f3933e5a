//! A configuration-aware source-code formatting pipeline for Python files,
//! exposed through a small request/response protocol.
//!
//! The pipeline resolves the effective formatter configuration for a target
//! file, decides whether the file is in scope via exclusion patterns, runs
//! the parse/transform/print sequence of the ruff formatter, and classifies
//! every outcome into a closed result type.

pub mod paths;
mod backend;
pub mod pipeline;
pub mod protocol;
