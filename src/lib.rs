//! Command planning for a blob-storage command-line client: credential
//! resolution, mode selection, argument validation, local path handling and
//! content checksums, and the text of listings. The network calls and file
//! access stay with the caller.

pub mod error;
pub mod config;
pub mod paths;
pub mod checksum;
pub mod command;
pub mod listing;
