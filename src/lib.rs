//! Sentence-embedding bridge: the fixed identity of the supported model and
//! the per-worker cache that decides when a model is loaded, reused or left
//! empty, and how each call of `vectorize` ends.

pub mod embedding;
pub mod bridge;
pub mod lifecycle;
