//! The error that the compilation pipeline reports.

use vstd::prelude::*;

verus! {

/// A stage of the pipeline that failed, with its diagnostic.
#[derive(Debug, Clone, PartialEq, Eq)]
pub enum PipelineError {
    /// Target selection or PTX generation.
    PtxGeneration(String),
    /// Export of LLVM or NVVM IR.
    Export(String),
    /// Verification of an operation, with the innermost operation that fails.
    Verification { name: String, message: String, operation: Option<String> },
}

impl PipelineError {
    /// The diagnostic.
    pub open spec fn text(self) -> Seq<char> {
        match self {
            PipelineError::PtxGeneration(text) => text@,
            PipelineError::Export(text) => text@,
            PipelineError::Verification { message, .. } => message@,
        }
    }

    /// The diagnostic.
    pub fn message(&self) -> (text: &str)
        ensures
            text@ == self.text(),
    {
        match self {
            PipelineError::PtxGeneration(text) => text.as_str(),
            PipelineError::Export(text) => text.as_str(),
            PipelineError::Verification { message, .. } => message.as_str(),
        }
    }
}

} // verus!
