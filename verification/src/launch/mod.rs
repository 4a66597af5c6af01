//! Kernel launch configuration.
//!
//! [`config::LaunchConfig`] bundles raw grid dimensions, block dimensions, and
//! dynamic shared memory size. Constructing one is harmless, but submitting it
//! without proving that it matches a kernel is not. Use a rank-preserving
//! config and [`prepare::PreparedLaunch`] for the checked path.

pub mod config;
pub mod contract;
pub mod error;
pub mod grounds;
pub mod messages;
pub mod prepare;
mod sealed;
pub mod validate;
