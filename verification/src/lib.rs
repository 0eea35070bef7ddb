//! Secure path resolution and filtered directory listing for a media file
//! server: request paths are sanitized into safe relative paths, checked
//! against the configured exclusion rules, resolved below the served root,
//! and rendered as index records or as a browsable page.

pub mod api;
pub mod cdn;
pub mod config;
pub mod error;
pub mod laws;
pub mod listing;
pub mod logging;
pub mod resolve;
pub mod rules;
pub mod util;
