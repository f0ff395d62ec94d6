//! The resident embedding model's backend choice and its errors.

use vstd::prelude::*;
use crate::text::{decimal, decimal_string};

verus! {

/// The embedding backends, in the order they are tried: CUDA, CoreML, ONNX
/// on a GPU, ONNX on the CPU, and the plain CPU backend.
#[derive(Debug, Clone, Copy, PartialEq, Eq, Structural)]
pub enum EmbeddingBackend {
    Cuda,
    CoreMl,
    OnnxGpu,
    OnnxCpu,
    Cpu,
}

/// Errors of embedding model operations.
#[derive(Debug, Clone)]
pub enum EmbeddingModelError {
    /// A backend could not be loaded.
    LoadFailed { backend: &'static str, reason: String },
    /// Inference failed.
    InferenceFailed { reason: String },
    /// An embedding has the wrong dimension.
    DimensionMismatch { expected: usize, actual: usize },
}

/// The text of an embedding model error.
pub open spec fn embedding_error_text(e: EmbeddingModelError) -> Seq<char> {
    match e {
        EmbeddingModelError::LoadFailed { backend, reason } => "backend load failed: "@ + backend@
            + ", reason: "@ + reason@,
        EmbeddingModelError::InferenceFailed { reason } => "inference failed: "@ + reason@,
        EmbeddingModelError::DimensionMismatch { expected, actual } => "dimension mismatch: expected "@
            + decimal(expected as nat) + ", got "@ + decimal(actual as nat),
    }
}

impl EmbeddingModelError {
    /// The text of this error.
    pub fn to_display_string(&self) -> (r: String)
        ensures
            r@ == embedding_error_text(*self),
    {
        proof {
            reveal_strlit("backend load failed: ");
            reveal_strlit(", reason: ");
            reveal_strlit("inference failed: ");
            reveal_strlit("dimension mismatch: expected ");
            reveal_strlit(", got ");
        }
        match self {
            EmbeddingModelError::LoadFailed { backend, reason } => {
                let mut s = String::from_str("backend load failed: ");
                s.append(backend);
                s.append(", reason: ");
                s.append(reason.as_str());
                s
            },
            EmbeddingModelError::InferenceFailed { reason } => {
                let mut s = String::from_str("inference failed: ");
                s.append(reason.as_str());
                s
            },
            EmbeddingModelError::DimensionMismatch { expected, actual } => {
                let mut s = String::from_str("dimension mismatch: expected ");
                s.append(decimal_string(*expected as u64).as_str());
                s.append(", got ");
                s.append(decimal_string(*actual as u64).as_str());
                s
            },
        }
    }
}

} // verus!
