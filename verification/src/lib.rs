//! Filtered directory traversal, tree rendering and level-ordered digests of a
//! source tree, with the rules of each stated as contracts.
//!
//! The library works on plain values: a directory is handed in as the list
//! of its entries, each with the verdict of the filter and, for a
//! directory, its own entries. Reading the disk and calling the completion
//! service are left to the caller.

pub mod filters;
pub mod tree;
pub mod iterator;
pub mod theorems;
pub mod representation;
pub mod print;
pub mod reader;
pub mod software;
pub mod digest;
pub mod growth;
pub mod templates;
pub mod analysis;
pub mod script;
pub mod moment;
pub mod snapshot;
pub mod mutation;
pub mod context;
pub mod project;
pub mod cli;
