//! The index: what a path below the root is, and what a directory holds.

pub mod files;
