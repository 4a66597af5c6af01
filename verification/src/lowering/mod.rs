//! Lowering to the LLVM dialect.

pub mod atomic;
pub mod context;
pub mod meaning;
