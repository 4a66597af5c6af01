//! What the translation of Rust functions needs besides their bodies.

pub mod array_len;
pub mod location;
