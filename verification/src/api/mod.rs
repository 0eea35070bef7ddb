//! The JSON interface of the server.

pub mod index;
pub mod status;
