//! What the client keeps between runs.

pub mod cache_metadata;
