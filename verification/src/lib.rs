//! Flattens a set of candidate files into one tagged text document:
//! configuration-driven matching by extension and filename, per-file
//! blocks bracketed by tag lines, and a deterministic ordered join.

use vstd::prelude::*;

pub mod config;
pub mod matcher;
pub mod paths;
pub mod extractor;
pub mod aggregate;

verus! {

/// An error that aborts a whole flattening run.
#[derive(Clone, Copy, Debug, PartialEq, Eq, Structural)]
pub enum FlattenError {
    /// The requested project type is absent from the configuration.
    ConfigError,
    /// A matched file's content or modification time could not be read.
    IoError,
}

} // verus!
