//! Protocol core of a Nix binary cache that stores its artifacts in an
//! outside storage service and falls back to an upstream cache.

pub mod binary_cache;
pub mod error;
