//! Plain data types shared across the crate.

use vstd::prelude::*;
use crate::error::Error;
use crate::model::bytes_equal;

verus! {

/// The three supported elliptic curves.
#[derive(Debug, Clone, Copy, PartialEq, Eq, Structural, Hash)]
pub enum CurveType {
    /// secp256k1, the Bitcoin/Ethereum curve.
    Secp256k1,
    /// NIST P-256.
    P256,
    /// Edwards25519.
    Edwards25519,
}

impl CurveType {
    /// The ASCII name carried in hash transcripts: "secp256k1", "p256" or
    /// "ed25519".
    pub open spec fn spec_name_bytes(self) -> Seq<u8> {
        match self {
            CurveType::Secp256k1 => seq![115u8, 101, 99, 112, 50, 53, 54, 107, 49],
            CurveType::P256 => seq![112u8, 50, 53, 54],
            CurveType::Edwards25519 => seq![101u8, 100, 50, 53, 53, 49, 57],
        }
    }

    /// The curve's ASCII name as bytes.
    pub fn name_bytes(&self) -> (r: Vec<u8>)
        ensures
            r@ == self.spec_name_bytes(),
    {
        match self {
            CurveType::Secp256k1 => {
                // "secp256k1"
                let v = vec![115u8, 101, 99, 112, 50, 53, 54, 107, 49];
                v
            },
            CurveType::P256 => {
                // "p256"
                let v = vec![112u8, 50, 53, 54];
                v
            },
            CurveType::Edwards25519 => {
                // "ed25519"
                let v = vec![101u8, 100, 50, 53, 53, 49, 57];
                v
            },
        }
    }
}

impl std::str::FromStr for CurveType {
    type Err = Error;

    /// Parse a curve name, case-insensitively: "k1" or "secp256k1", "r1" or
    /// "p256", "ed25519" or "edwards25519".
    fn from_str(s: &str) -> std::result::Result<CurveType, Error> {
        let b = s.as_bytes();
        let mut low: Vec<u8> = Vec::new();
        let mut i: usize = 0;
        while i < b.len()
            decreases b@.len() - i,
        {
            let x = b[i];
            if 65 <= x && x <= 90 {
                low.push(x + 32);
            } else {
                low.push(x);
            }
            i += 1;
        }
        // "k1" | "secp256k1"
        let k1_short = vec![107u8, 49];
        let k1_long = vec![115u8, 101, 99, 112, 50, 53, 54, 107, 49];
        if bytes_equal(low.as_slice(), k1_short.as_slice()) || bytes_equal(low.as_slice(), k1_long.as_slice()) {
            return Ok(CurveType::Secp256k1);
        }
        // "r1" | "p256"
        let r1_short = vec![114u8, 49];
        let r1_long = vec![112u8, 50, 53, 54];
        if bytes_equal(low.as_slice(), r1_short.as_slice()) || bytes_equal(low.as_slice(), r1_long.as_slice()) {
            return Ok(CurveType::P256);
        }
        // "ed25519" | "edwards25519"
        let ed_short = vec![101u8, 100, 50, 53, 53, 49, 57];
        let ed_long = vec![101u8, 100, 119, 97, 114, 100, 115, 50, 53, 53, 49, 57];
        if bytes_equal(low.as_slice(), ed_short.as_slice()) || bytes_equal(low.as_slice(), ed_long.as_slice()) {
            return Ok(CurveType::Edwards25519);
        }
        Err(Error::InvalidCurve(s.to_owned()))
    }
}

/// Share identifier.
pub type ShareId = u32;

/// Threshold for secret sharing.
pub type Threshold = usize;

/// Number of participants.
pub type ParticipantCount = usize;

/// Randomness for commitments.
pub type Randomness = Vec<u8>;

/// Commitment value.
pub type Commitment = Vec<u8>;

/// Serialised zero-knowledge proof.
pub type ZKProof = Vec<u8>;

/// Share data as carried in messages.
#[derive(Debug, Clone)]
pub struct Share {
    pub id: ShareId,
    pub value: Vec<u8>,
    pub commitment: Option<Commitment>,
    pub proof: Option<ZKProof>,
}

/// The dealer's Laurent coefficients, exported as raw bytes.
#[derive(Debug, Clone)]
pub struct LaurentCoefficients {
    pub a_coeffs: Vec<Vec<u8>>,
    pub b_coeffs: Vec<Vec<u8>>,
}

/// Parameters of one sharing: curve, threshold and participant count.
#[derive(Debug, Clone)]
pub struct SharingParams {
    pub curve_type: CurveType,
    pub threshold: Threshold,
    pub participants: ParticipantCount,
}

/// The outcome of a reconstruction.
#[derive(Debug, Clone)]
pub struct ReconstructionResult {
    pub secret: Vec<u8>,
    pub valid: bool,
    pub participants_used: Vec<ShareId>,
}

} // verus!
