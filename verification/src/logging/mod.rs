//! What the server writes to its log about the libraries it drives.

pub mod ffmpeg;
