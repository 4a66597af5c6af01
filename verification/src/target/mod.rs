//! Architecture feature detection and PTX target selection.
//!
//! Detects the architecture and PTX-ISA requirements of exported LLVM IR and
//! selects the minimum `sm_XX` that can lower them.

pub mod detect;
pub mod evidence;
pub mod features;
pub mod generations;
pub mod join;
pub mod outcomes;
pub mod select;
