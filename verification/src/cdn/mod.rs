//! The raw interface of the server: the files themselves.

pub mod files;
