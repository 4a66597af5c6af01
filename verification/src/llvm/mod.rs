//! The LLVM dialect: types, values and operations.

pub mod attributes;
pub mod dialect;
pub mod identifier;
pub mod ops;
pub mod syntax;
pub mod types;
pub mod value;
