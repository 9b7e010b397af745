//! Error taxonomy for the crate.

use vstd::prelude::*;

verus! {

/// Everything that can go wrong in the library, as typed variants.
#[derive(Debug, Clone)]
pub enum Error {
    /// Malformed scalar or point bytes, or operands from two different curves.
    CurveError(String),
    /// Laurent-series arithmetic failure.
    LaurentError(String),
    /// Pedersen commitment failure.
    CommitmentError(String),
    /// Zero-knowledge proof failure.
    ZKProofError(String),
    /// Framing or encoding failure.
    SerializationError(String),
    /// A caller-supplied parameter was rejected.
    InvalidInput(String),
    /// Reconstruction was attempted with too few shares.
    InsufficientShares { required: usize, got: usize },
    /// An unknown curve name.
    InvalidCurve(String),
    /// A failure of the surroundings bubbling up.
    Internal(String),
}

impl Error {
    /// A human-readable one-line description of the error.
    pub fn message(&self) -> String {
        match self {
            Error::CurveError(s) => s.clone(),
            Error::LaurentError(s) => s.clone(),
            Error::CommitmentError(s) => s.clone(),
            Error::ZKProofError(s) => s.clone(),
            Error::SerializationError(s) => s.clone(),
            Error::InvalidInput(s) => s.clone(),
            Error::InsufficientShares { required: _, got: _ } => "insufficient shares".to_owned(),
            Error::InvalidCurve(s) => s.clone(),
            Error::Internal(s) => s.clone(),
        }
    }
}

/// Result type used throughout the crate.
pub type Result<T> = std::result::Result<T, Error>;

} // verus!
