//! Verified core of a Rust-to-CUDA toolchain.

mod text;

pub mod arch;
pub mod device_future;
pub mod diagnostics;
pub mod driver;
pub mod error;
pub mod export;
pub mod importer;
pub mod kernel_family;
pub mod launch;
pub mod llvm;
pub mod lowering;
pub mod module;
pub mod options;
pub mod target;
pub mod verify;
