//! Threshold secret sharing over elliptic curves.
//!
//! A dealer splits a secret scalar into `N` shares through a Laurent-series
//! polynomial so that any `T` of them recover the secret by a plain modular
//! sum.  Every share can be bound by a Pedersen commitment, proven well formed
//! by a non-interactive zero-knowledge proof of the commitment opening, and
//! the same primitives yield a compressed Schnorr signature.  Three curves are
//! supported: secp256k1, NIST P-256 and Edwards25519.

pub mod curve;
pub mod error;
pub mod hash;
pub mod laurent;
pub mod model;
pub mod network;
pub mod pedersen;
pub mod types;
pub mod zkp;

pub use curve::{Curve, Point, Scalar};
pub use laurent::{LaurentSeries, Share};
pub use pedersen::{CommitmentProof, CommittedShare, PedersenCommitment};
pub use zkp::{SchnorrSignature, ZeroKnowledgeProof};
pub use network::{CoordinatorState, NetworkMessage, Participant, ParticipantTable, ProtocolCoordinator};
pub use error::{Error, Result};
pub use types::{
    Commitment, CurveType, LaurentCoefficients, ParticipantCount, Randomness,
    ReconstructionResult, ShareId, SharingParams, Threshold, ZKProof,
};
