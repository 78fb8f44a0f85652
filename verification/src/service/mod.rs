//! What the service does with uploads, downloads, queries and deletions.

pub mod file;
