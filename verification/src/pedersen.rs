//! Pedersen commitments for share validation.
//!
//! A commitment to `x` with randomness `r` is `C = g*x + h*r` on the chosen
//! curve, published as the compressed encoding of `C`.  The second generator
//! `h` is derived deterministically by iterated domain-separated hashing
//! until a candidate encoding decodes to a point, so its discrete logarithm
//! with respect to `g` is unknown to everyone, which is what makes the
//! commitment binding.

use vstd::prelude::*;
use crate::curve::{generator_bytes, group_order, point_add_val, point_mul_val, point_ok, Point,
    Scalar};
use crate::error::{Error, Result};
use crate::hash::{sha256, sha256_of};
use crate::laurent::Share;
use crate::model::{append_bytes, be_val, bytes_equal, lemma_be_canon, nat_to_be};
use crate::types::{Commitment, CurveType, Randomness};

verus! {

/// The domain-separation prefix for the derivation of `h`:
/// the ASCII bytes of "z-mpc/pedersen/h/".
pub open spec fn ds_pedersen_h() -> Seq<u8> {
    seq![122u8, 45, 109, 112, 99, 47, 112, 101, 100, 101, 114, 115, 101, 110, 47, 104, 47]
}

/// The candidate encoding tried at counter `ctr`: a compressed-point prefix
/// (0x02 on the Weierstrass curves, nothing on Edwards) followed by the hash
/// of the domain tag, the curve name and the counter byte.  The generator
/// taken is eight times the first decodable candidate.
pub open spec fn h_candidate(c: CurveType, ctr: int) -> Seq<u8> {
    let digest = sha256_of(ds_pedersen_h() + c.spec_name_bytes() + seq![ctr as u8]);
    match c {
        CurveType::Secp256k1 => seq![2u8] + digest,
        CurveType::P256 => seq![2u8] + digest,
        CurveType::Edwards25519 => digest,
    }
}

/// Whether the candidate at `ctr` decodes to a point of the curve.
pub open spec fn h_attempt_ok(c: CurveType, ctr: int) -> bool {
    point_ok(c, h_candidate(c, ctr))
}

/// `j` is the first counter below 256 whose candidate decodes.
pub open spec fn h_index(c: CurveType, j: int) -> bool {
    0 <= j < 256 && h_attempt_ok(c, j) && forall|jj: int| 0 <= jj < j ==> !h_attempt_ok(c, jj)
}

/// The derived second generator: the candidate at the first valid counter,
/// multiplied by eight to clear any cofactor component, so that it lies in
/// the prime-order subgroup on every curve.
pub open spec fn h_bytes(c: CurveType) -> Seq<u8> {
    point_mul_val(c, h_candidate(c, choose|j: int| h_index(c, j)), nat_to_be(8, 32))
}

/// The first valid counter is unique.
pub proof fn lemma_h_index_unique(c: CurveType, j1: int, j2: int)
    requires
        h_index(c, j1),
        h_index(c, j2),
    ensures
        j1 == j2,
{
}

/// Any well-formed parameter set carries exactly the derived generator.
pub proof fn lemma_h_bytes(c: CurveType, j: int)
    requires
        h_index(c, j),
    ensures
        h_bytes(c) == point_mul_val(c, h_candidate(c, j), nat_to_be(8, 32)),
{
    let jc = choose|j0: int| h_index(c, j0);
    assert(h_index(c, jc));
    lemma_h_index_unique(c, j, jc);
}

/// The compressed commitment `g*x + h*r`, where `x` is handed to the curve
/// as the given bytes and the randomness is first reduced to its canonical
/// 32-byte form.
pub open spec fn commit_val(c: CurveType, g: Seq<u8>, h: Seq<u8>, x: Seq<u8>, rnd: Seq<u8>) -> Seq<
    u8,
> {
    point_add_val(
        c,
        point_mul_val(c, g, x),
        point_mul_val(c, h, nat_to_be(be_val(rnd) % group_order(c), 32)),
    )
}

/// The commitment to a share: the share value bytes are themselves reduced
/// to canonical form before committing.
pub open spec fn share_commit_val(c: CurveType, share_value: Seq<u8>, rnd: Seq<u8>) -> Seq<u8> {
    commit_val(
        c,
        generator_bytes(c),
        h_bytes(c),
        nat_to_be(be_val(share_value) % group_order(c), 32),
        rnd,
    )
}

/// Pedersen commitment parameters: the canonical generator `g` and the
/// derived generator `h`.
#[derive(Debug, Clone)]
pub struct PedersenCommitment {
    pub curve_type: CurveType,
    pub g: Point,
    pub h: Point,
}

impl PedersenCommitment {
    /// `g` is the canonical generator and `h` the derived one, both valid
    /// points of the parameter curve.
    pub open spec fn wf(self) -> bool {
        &&& self.g.curve_type == self.curve_type && self.g.wf() && self.g.bytes@
            == generator_bytes(self.curve_type)
        &&& self.h.curve_type == self.curve_type && self.h.wf()
        &&& exists|j: int| #[trigger] h_index(self.curve_type, j) && self.h.bytes@
            == point_mul_val(self.curve_type, h_candidate(self.curve_type, j), nat_to_be(8, 32))
    }

    /// Well-formed parameters carry exactly the derived generator bytes.
    pub proof fn lemma_wf_h(self)
        requires
            self.wf(),
        ensures
            self.h.bytes@ == h_bytes(self.curve_type),
            self.g.bytes@ == generator_bytes(self.curve_type),
    {
        let j = choose|j: int|
            #[trigger] h_index(self.curve_type, j) && self.h.bytes@ == point_mul_val(
                self.curve_type,
                h_candidate(self.curve_type, j),
                nat_to_be(8, 32),
            );
        lemma_h_bytes(self.curve_type, j);
    }

    /// Create the commitment scheme of a curve: the canonical generator and
    /// the deterministically derived second generator.  Fails only when no
    /// hash candidate below 256 decodes to a point, which in practice never
    /// happens.
    pub fn new(curve_type: CurveType) -> (r: Result<PedersenCommitment>)
        ensures
            r matches Ok(pc) ==> pc.curve_type == curve_type && pc.wf(),
            (exists|j: int| #[trigger] h_index(curve_type, j)) ==> r is Ok,
            r is Err ==> (forall|j: int| 0 <= j < 256 ==> !h_attempt_ok(curve_type, j)),
            r matches Err(e) ==> e is CommitmentError,
    {
        let g = match curve_type {
            CurveType::Secp256k1 => crate::curve::secp256k1::Secp256k1::generator_point(),
            CurveType::P256 => crate::curve::p256::P256::generator_point(),
            CurveType::Edwards25519 => crate::curve::ed25519::Ed25519::generator_point(),
        };
        let name = curve_type.name_bytes();
        let mut ctr: usize = 0;
        while ctr < 256
            invariant
                g.curve_type == curve_type,
                g.wf(),
                g.bytes@ == generator_bytes(curve_type),
                name@ == curve_type.spec_name_bytes(),
                ctr <= 256,
                forall|jj: int| 0 <= jj < ctr ==> !h_attempt_ok(curve_type, jj),
            decreases 256 - ctr,
        {
            let mut input: Vec<u8> = Vec::new();
            let ds = vec![122u8, 45, 109, 112, 99, 47, 112, 101, 100, 101, 114, 115, 101, 110, 47, 104, 47];
            append_bytes(&mut input, ds.as_slice());
            append_bytes(&mut input, name.as_slice());
            input.push(ctr as u8);
            proof {
                assert(input@ =~= ds_pedersen_h() + curve_type.spec_name_bytes() + seq![
                    ctr as u8,
                ]);
            }
            let digest = sha256(input.as_slice());
            let candidate = match curve_type {
                CurveType::Secp256k1 => {
                    let mut v = vec![2u8];
                    append_bytes(&mut v, digest.as_slice());
                    v
                },
                CurveType::P256 => {
                    let mut v = vec![2u8];
                    append_bytes(&mut v, digest.as_slice());
                    v
                },
                CurveType::Edwards25519 => digest,
            };
            proof {
                assert(candidate@ =~= h_candidate(curve_type, ctr as int));
            }
            match Point::from_compressed_bytes(curve_type, candidate.as_slice()) {
                Ok(h0) => {
                    let eight = crate::curve::scalar_of_u64(curve_type, 8);
                    proof {
                        lemma_be_canon(eight.value@);
                    }
                    let h = h0.mul(&eight)?;
                    proof {
                        assert(h_index(curve_type, ctr as int));
                        assert(h.bytes@ == point_mul_val(curve_type, h_candidate(curve_type,
                            ctr as int), nat_to_be(8, 32)));
                    }
                    return Ok(PedersenCommitment { curve_type, g, h });
                },
                Err(_) => {},
            }
            ctr += 1;
        }
        Err(Error::CommitmentError("no second generator candidate decoded".to_owned()))
    }

    /// Commit to a scalar value with the given 32 bytes of randomness:
    /// `C = g*value + h*r` with `r` the randomness reduced into the scalar
    /// field.
    pub fn commit(&self, value: &Scalar, randomness: &Randomness) -> (r: Result<Commitment>)
        requires
            self.wf(),
        ensures
            ({
                let good = value.curve_type == self.curve_type && value.value@.len() == 32
                    && randomness@.len() == 32;
                &&& good ==> (r matches Ok(c) && c@ == commit_val(self.curve_type, self.g.bytes@,
                    self.h.bytes@, value.value@, randomness@))
                &&& !good ==> (r matches Err(e) && e is CurveError)
            }),
    {
        if randomness.len() != 32 {
            return Err(Error::CurveError("invalid randomness length".to_owned()));
        }
        if value.value.len() != 32 {
            return Err(Error::CurveError("invalid scalar length".to_owned()));
        }
        if value.curve_type != self.curve_type {
            return Err(Error::CurveError("scalar from a different curve".to_owned()));
        }
        let rs = crate::curve::reduce32(self.curve_type, randomness.as_slice());
        proof {
            lemma_be_canon(rs.value@);
        }
        let g_value = self.g.mul(value)?;
        let h_r = self.h.mul(&rs)?;
        let commitment_point = g_value.add(&h_r)?;
        commitment_point.to_compressed_bytes()
    }

    /// Commit to a share value with fresh randomness; the randomness is not
    /// returned, so the commitment can only be checked by whoever drew it.
    pub fn commit_share(&self, share: &Share) -> (r: Result<Commitment>)
        requires
            self.wf(),
        ensures
            share.value@.len() == 32 ==> (r matches Ok(c) && exists|rnd: Seq<u8>|
                rnd.len() == 32 && c@ == commit_val(self.curve_type, self.g.bytes@, self.h.bytes@,
                nat_to_be(be_val(share.value@) % group_order(self.curve_type), 32), rnd)),
            share.value@.len() != 32 ==> (r matches Err(e) && e is CurveError),
    {
        if share.value.len() != 32 {
            return Err(Error::CurveError("invalid scalar length".to_owned()));
        }
        let value = crate::curve::reduce32(self.curve_type, share.value.as_slice());
        proof {
            lemma_be_canon(value.value@);
        }
        let randomness = self.generate_randomness();
        let c = self.commit(&value, &randomness)?;
        proof {
            assert(c@ == commit_val(self.curve_type, self.g.bytes@, self.h.bytes@, value.value@,
                randomness@));
        }
        Ok(c)
    }

    /// Relies on `rand::Rng::gen`: 32 bytes from the process CSPRNG.
    #[verifier::external_body]
    pub fn generate_randomness(&self) -> (r: Randomness)
        ensures
            r@.len() == 32,
    {
        let mut rng = rand::thread_rng();
        (0..32).map(|_| rand::Rng::gen::<u8>(&mut rng)).collect()
    }

    /// Verify a commitment by recomputing it.
    pub fn verify(&self, commitment: &Commitment, value: &Scalar, randomness: &Randomness) -> (r:
        Result<bool>)
        requires
            self.wf(),
        ensures
            ({
                let good = value.curve_type == self.curve_type && value.value@.len() == 32
                    && randomness@.len() == 32;
                &&& good ==> (r matches Ok(b) && (b <==> commitment@ == commit_val(self.curve_type,
                    self.g.bytes@, self.h.bytes@, value.value@, randomness@)))
                &&& !good ==> (r matches Err(e) && e is CurveError)
            }),
    {
        let computed = self.commit(value, randomness)?;
        Ok(bytes_equal(commitment.as_slice(), computed.as_slice()))
    }

    /// Verify that a commitment binds to a share's value.
    pub fn verify_share_commitment(&self, share: &Share, commitment: &Commitment, randomness:
        &Randomness) -> (r: Result<bool>)
        requires
            self.wf(),
        ensures
            ({
                let good = share.value@.len() == 32 && randomness@.len() == 32;
                &&& good ==> (r matches Ok(b) && (b <==> commitment@ == commit_val(self.curve_type,
                    self.g.bytes@, self.h.bytes@, nat_to_be(be_val(share.value@) % group_order(
                    self.curve_type), 32), randomness@)))
                &&& !good ==> (r matches Err(e) && e is CurveError)
            }),
    {
        if share.value.len() != 32 {
            return Err(Error::CurveError("invalid scalar length".to_owned()));
        }
        let value = crate::curve::reduce32(self.curve_type, share.value.as_slice());
        proof {
            lemma_be_canon(value.value@);
        }
        self.verify(commitment, &value, randomness)
    }

    /// The generator pair `(g, h)`.
    pub fn get_parameters(&self) -> (r: (Point, Point))
        ensures
            r.0.curve_type == self.g.curve_type,
            r.0.bytes@ == self.g.bytes@,
            r.1.curve_type == self.h.curve_type,
            r.1.bytes@ == self.h.bytes@,
    {
        (
            Point::new(self.g.curve_type, self.g.bytes.clone()),
            Point::new(self.h.curve_type, self.h.bytes.clone()),
        )
    }

    /// Commit with caller-chosen randomness.
    pub fn commit_with_randomness(&self, value: &Scalar, randomness: &Randomness) -> (r: Result<
        Commitment,
    >)
        requires
            self.wf(),
        ensures
            ({
                let good = value.curve_type == self.curve_type && value.value@.len() == 32
                    && randomness@.len() == 32;
                &&& good ==> (r matches Ok(c) && c@ == commit_val(self.curve_type, self.g.bytes@,
                    self.h.bytes@, value.value@, randomness@))
                &&& !good ==> (r matches Err(e) && e is CurveError)
            }),
    {
        self.commit(value, randomness)
    }

    /// Commit to each value with its randomness, elementwise.
    pub fn batch_commit(&self, values: &[Scalar], randomness: &[Randomness]) -> (r: Result<Vec<
        Commitment,
    >>)
        requires
            self.wf(),
        ensures
            values@.len() != randomness@.len() ==> (r matches Err(e) && e is InvalidInput),
            values@.len() == randomness@.len() && (forall|j: int|
                0 <= j < values@.len() ==> (#[trigger] values@[j]).curve_type == self.curve_type
                    && values@[j].value@.len() == 32 && randomness@[j]@.len() == 32) ==> (
            r matches Ok(v) && v@.len() == values@.len() && (forall|j: int|
                0 <= j < values@.len() ==> (#[trigger] v@[j])@ == commit_val(self.curve_type,
                self.g.bytes@, self.h.bytes@, values@[j].value@, randomness@[j]@))),
            values@.len() == randomness@.len() && !(forall|j: int|
                0 <= j < values@.len() ==> (#[trigger] values@[j]).curve_type == self.curve_type
                    && values@[j].value@.len() == 32 && randomness@[j]@.len() == 32) ==> (
            r matches Err(e) && e is CurveError),
            r matches Err(e) ==> e is InvalidInput || e is CurveError,
    {
        if values.len() != randomness.len() {
            return Err(Error::InvalidInput("Values and randomness must have same length".to_owned()));
        }
        let mut commitments: Vec<Commitment> = Vec::new();
        let mut j: usize = 0;
        while j < values.len()
            invariant
                self.wf(),
                j <= values@.len(),
                values@.len() == randomness@.len(),
                commitments@.len() == j,
                forall|t: int|
                    0 <= t < j ==> (#[trigger] values@[t]).curve_type == self.curve_type
                        && values@[t].value@.len() == 32 && randomness@[t]@.len() == 32,
                forall|t: int|
                    0 <= t < j ==> (#[trigger] commitments@[t])@ == commit_val(self.curve_type,
                        self.g.bytes@, self.h.bytes@, values@[t].value@, randomness@[t]@),
            decreases values@.len() - j,
        {
            let c = self.commit(&values[j], &randomness[j])?;
            commitments.push(c);
            j += 1;
        }
        Ok(commitments)
    }

    /// Verify each commitment against its value and randomness, stopping at
    /// the first mismatch.
    pub fn batch_verify(&self, commitments: &[Commitment], values: &[Scalar], randomness: &[Randomness]) -> (r: Result<bool>)
        requires
            self.wf(),
        ensures
            commitments@.len() != values@.len() || values@.len() != randomness@.len() ==> (
            r matches Err(e) && e is InvalidInput),
            commitments@.len() == values@.len() && values@.len() == randomness@.len() && (forall|
                j: int,
            |
                0 <= j < values@.len() ==> (#[trigger] values@[j]).curve_type == self.curve_type
                    && values@[j].value@.len() == 32 && randomness@[j]@.len() == 32) ==> (
            r matches Ok(b) && (b <==> forall|j: int|
                0 <= j < values@.len() ==> (#[trigger] commitments@[j])@ == commit_val(
                self.curve_type, self.g.bytes@, self.h.bytes@, values@[j].value@,
                randomness@[j]@))),
            commitments@.len() == values@.len() && values@.len() == randomness@.len() && !(forall|
                j: int,
            |
                0 <= j < values@.len() ==> (#[trigger] values@[j]).curve_type == self.curve_type
                    && values@[j].value@.len() == 32 && randomness@[j]@.len() == 32) ==> !(
            r matches Ok(b) && b),
            r matches Err(e) ==> e is InvalidInput || e is CurveError,
    {
        if commitments.len() != values.len() || values.len() != randomness.len() {
            return Err(Error::InvalidInput("All arrays must have same length".to_owned()));
        }
        let mut j: usize = 0;
        while j < values.len()
            invariant
                self.wf(),
                j <= values@.len(),
                commitments@.len() == values@.len(),
                values@.len() == randomness@.len(),
                forall|t: int|
                    0 <= t < j ==> (#[trigger] values@[t]).curve_type == self.curve_type
                        && values@[t].value@.len() == 32 && randomness@[t]@.len() == 32,
                forall|t: int|
                    0 <= t < j ==> (#[trigger] commitments@[t])@ == commit_val(self.curve_type,
                        self.g.bytes@, self.h.bytes@, values@[t].value@, randomness@[t]@),
            decreases values@.len() - j,
        {
            let ok = self.verify(&commitments[j], &values[j], &randomness[j])?;
            if !ok {
                return Ok(false);
            }
            j += 1;
        }
        Ok(true)
    }
}

/// Parameter determinism: any two well-formed parameter sets of the same
/// curve carry the same generator pair, so commitments verify across
/// independently created parameter sets.
pub proof fn lemma_params_deterministic(p1: PedersenCommitment, p2: PedersenCommitment)
    requires
        p1.wf(),
        p2.wf(),
        p1.curve_type == p2.curve_type,
    ensures
        p1.g.bytes@ == p2.g.bytes@,
        p1.h.bytes@ == p2.h.bytes@,
{
    p1.lemma_wf_h();
    p2.lemma_wf_h();
}

/// A commitment opens to `x` under the curve's derived parameters.
pub open spec fn opens_commitment(c: CurveType, commitment: Seq<u8>, x: Seq<u8>, rnd: Seq<u8>) -> bool {
    commitment == commit_val(c, generator_bytes(c), h_bytes(c), x, rnd)
}

/// A commitment opens to a share value (reduced) under the curve's derived
/// parameters.
pub open spec fn share_opens(c: CurveType, share_value: Seq<u8>, commitment: Seq<u8>, rnd: Seq<u8>) -> bool {
    commitment == share_commit_val(c, share_value, rnd)
}

/// A claimed opening of a commitment: the randomness is disclosed, so the
/// commitment can be recomputed and compared.
#[derive(Debug, Clone)]
pub struct CommitmentProof {
    pub commitment: Commitment,
    pub randomness: Randomness,
    pub curve_type: CurveType,
}

impl CommitmentProof {
    /// Create a new opening claim.
    pub fn new(commitment: Commitment, randomness: Randomness, curve_type: CurveType) -> (r: CommitmentProof)
        ensures
            r.commitment == commitment,
            r.randomness == randomness,
            r.curve_type == curve_type,
    {
        CommitmentProof { commitment, randomness, curve_type }
    }

    /// Check that the commitment opens to `value` with the disclosed
    /// randomness, under the curve's derived parameters.
    pub fn verify(&self, value: &Scalar) -> (r: Result<bool>)
        ensures
            ({
                let derivable = exists|j: int| #[trigger] h_index(self.curve_type, j);
                let good = value.curve_type == self.curve_type && value.value@.len() == 32
                    && self.randomness@.len() == 32;
                &&& derivable && good ==> (r matches Ok(b) && (b <==> opens_commitment(
                    self.curve_type, self.commitment@, value.value@, self.randomness@)))
                &&& derivable && !good ==> (r matches Err(e) && e is CurveError)
                &&& !derivable ==> (r matches Err(e) && e is CommitmentError)
            }),
    {
        let pedersen = PedersenCommitment::new(self.curve_type)?;
        proof {
            pedersen.lemma_wf_h();
        }
        pedersen.verify(&self.commitment, value, &self.randomness)
    }

    /// The commitment bytes.
    pub fn commitment_bytes(&self) -> (r: &[u8])
        ensures
            r@ == self.commitment@,
    {
        self.commitment.as_slice()
    }

    /// The randomness bytes.
    pub fn randomness_bytes(&self) -> (r: &[u8])
        ensures
            r@ == self.randomness@,
    {
        self.randomness.as_slice()
    }
}

/// A share extended with its commitment and the randomness that opens it.
#[derive(Debug, Clone)]
pub struct CommittedShare {
    pub share: Share,
    pub commitment: Commitment,
    pub randomness: Randomness,
    pub proof: Option<CommitmentProof>,
}

impl CommittedShare {
    /// Create a new committed share.
    pub fn new(share: Share, commitment: Commitment, randomness: Randomness) -> (r: CommittedShare)
        ensures
            r.share == share,
            r.commitment == commitment,
            r.randomness == randomness,
            r.proof is None,
    {
        CommittedShare { share, commitment, randomness, proof: None }
    }

    /// Attach an opening claim.
    pub fn with_proof(self, proof: CommitmentProof) -> (r: CommittedShare)
        ensures
            r.share == self.share,
            r.commitment == self.commitment,
            r.randomness == self.randomness,
            r.proof matches Some(p) && p == proof,
    {
        CommittedShare { proof: Some(proof), ..self }
    }

    /// Check that the commitment binds to the share's value.
    pub fn verify(&self, curve_type: CurveType) -> (r: Result<bool>)
        ensures
            ({
                let derivable = exists|j: int| #[trigger] h_index(curve_type, j);
                let good = self.share.value@.len() == 32 && self.randomness@.len() == 32;
                &&& derivable && good ==> (r matches Ok(b) && (b <==> share_opens(curve_type,
                    self.share.value@, self.commitment@, self.randomness@)))
                &&& derivable && !good ==> (r matches Err(e) && e is CurveError)
                &&& !derivable ==> (r matches Err(e) && e is CommitmentError)
            }),
    {
        let pedersen = PedersenCommitment::new(curve_type)?;
        proof {
            pedersen.lemma_wf_h();
        }
        pedersen.verify_share_commitment(&self.share, &self.commitment, &self.randomness)
    }

    /// The underlying share.
    pub fn share(&self) -> (r: &Share)
        ensures
            r == self.share,
    {
        &self.share
    }

    /// The commitment.
    pub fn commitment(&self) -> (r: &Commitment)
        ensures
            r == self.commitment,
    {
        &self.commitment
    }
}

/// Copies a share field by field.
fn clone_share(s: &Share) -> (r: Share)
    ensures
        r.id == s.id,
        r.value@ == s.value@,
        r.commitment is Some <==> s.commitment is Some,
        s.commitment is Some ==> r.commitment->Some_0@ == s.commitment->Some_0@,
        r.proof is Some <==> s.proof is Some,
        s.proof is Some ==> r.proof->Some_0@ == s.proof->Some_0@,
{
    let commitment = match &s.commitment {
        Some(c) => Some(c.clone()),
        None => None,
    };
    let proof = match &s.proof {
        Some(p) => Some(p.clone()),
        None => None,
    };
    Share { id: s.id, value: s.value.clone(), commitment, proof }
}

/// Commit to every share with fresh randomness, keeping the randomness
/// beside each commitment.
pub fn commit_all_shares(shares: &[Share], curve_type: CurveType) -> (r: Result<Vec<CommittedShare>>)
    ensures
        ({
            let derivable = exists|j: int| #[trigger] h_index(curve_type, j);
            let good = forall|j: int| 0 <= j < shares@.len() ==> (#[trigger] shares@[j]).value@.len() == 32;
            &&& derivable && good ==> (r matches Ok(v) && v@.len() == shares@.len() && (forall|j: int|
                0 <= j < v@.len() ==> (#[trigger] v@[j]).share.id == shares@[j].id
                    && v@[j].share.value@ == shares@[j].value@ && v@[j].randomness@.len() == 32
                    && share_opens(curve_type, shares@[j].value@, v@[j].commitment@, v@[j].randomness@)
                    && v@[j].proof is None
                    && (v@[j].share.commitment is Some <==> shares@[j].commitment is Some)
                    && (shares@[j].commitment is Some ==> v@[j].share.commitment->Some_0@ == shares@[j].commitment->Some_0@)
                    && (v@[j].share.proof is Some <==> shares@[j].proof is Some)
                    && (shares@[j].proof is Some ==> v@[j].share.proof->Some_0@ == shares@[j].proof->Some_0@)))
            &&& derivable && !good ==> (r matches Err(e) && e is CurveError)
            &&& !derivable ==> (r matches Err(e) && e is CommitmentError)
        }),
{
    let pedersen = PedersenCommitment::new(curve_type)?;
    proof {
        pedersen.lemma_wf_h();
    }
    let mut committed_shares: Vec<CommittedShare> = Vec::new();
    let mut i: usize = 0;
    while i < shares.len()
        invariant
            pedersen.wf(),
            pedersen.curve_type == curve_type,
            pedersen.g.bytes@ == generator_bytes(curve_type),
            pedersen.h.bytes@ == h_bytes(curve_type),
            i <= shares@.len(),
            committed_shares@.len() == i,
            forall|j: int| 0 <= j < i ==> (#[trigger] shares@[j]).value@.len() == 32,
            forall|j: int|
                0 <= j < i ==> (#[trigger] committed_shares@[j]).share.id == shares@[j].id
                    && committed_shares@[j].share.value@ == shares@[j].value@
                    && committed_shares@[j].randomness@.len() == 32 && share_opens(curve_type,
                    shares@[j].value@, committed_shares@[j].commitment@,
                    committed_shares@[j].randomness@) && committed_shares@[j].proof is None
                    && (committed_shares@[j].share.commitment is Some <==> shares@[j].commitment is Some)
                    && (shares@[j].commitment is Some ==> committed_shares@[j].share.commitment->Some_0@ == shares@[j].commitment->Some_0@)
                    && (committed_shares@[j].share.proof is Some <==> shares@[j].proof is Some)
                    && (shares@[j].proof is Some ==> committed_shares@[j].share.proof->Some_0@ == shares@[j].proof->Some_0@),
        decreases shares@.len() - i,
    {
        let share = &shares[i];
        if share.value.len() != 32 {
            return Err(Error::CurveError("invalid scalar length".to_owned()));
        }
        let randomness = pedersen.generate_randomness();
        let value = crate::curve::reduce32(curve_type, share.value.as_slice());
        proof {
            lemma_be_canon(value.value@);
        }
        let commitment = pedersen.commit(&value, &randomness)?;
        committed_shares.push(CommittedShare::new(clone_share(share), commitment, randomness));
        i += 1;
    }
    Ok(committed_shares)
}

/// Verify every committed share, stopping at the first failure.
pub fn verify_all_committed_shares(committed_shares: &[CommittedShare], curve_type: CurveType) -> (r: Result<bool>)
    ensures
        ({
            let derivable = exists|j: int| #[trigger] h_index(curve_type, j);
            let good = forall|j: int|
                0 <= j < committed_shares@.len() ==> (#[trigger] committed_shares@[j]).share.value@.len() == 32
                    && committed_shares@[j].randomness@.len() == 32;
            &&& (derivable || committed_shares@.len() == 0) && good ==> (r matches Ok(b) && (
            b <==> forall|j: int|
                0 <= j < committed_shares@.len() ==> share_opens(curve_type,
                    (#[trigger] committed_shares@[j]).share.value@, committed_shares@[j].commitment@,
                    committed_shares@[j].randomness@)))
            &&& !derivable && committed_shares@.len() > 0 ==> (r matches Err(e) && e is CommitmentError)
        }),
{
    let mut i: usize = 0;
    while i < committed_shares.len()
        invariant
            i <= committed_shares@.len(),
            i > 0 ==> exists|j: int| #[trigger] h_index(curve_type, j),
            forall|j: int|
                0 <= j < i ==> share_opens(curve_type,
                    (#[trigger] committed_shares@[j]).share.value@,
                    committed_shares@[j].commitment@, committed_shares@[j].randomness@),
        decreases committed_shares@.len() - i,
    {
        let ok = committed_shares[i].verify(curve_type)?;
        if !ok {
            proof {
                assert(!share_opens(curve_type, committed_shares@[i as int].share.value@,
                    committed_shares@[i as int].commitment@,
                    committed_shares@[i as int].randomness@));
            }
            return Ok(false);
        }
        i += 1;
    }
    Ok(true)
}

/// Generate the commitment parameters of a curve.
pub fn generate_parameters(curve_type: CurveType) -> (r: Result<PedersenCommitment>)
    ensures
        r matches Ok(pc) ==> pc.curve_type == curve_type && pc.wf(),
        (exists|j: int| #[trigger] h_index(curve_type, j)) ==> r is Ok,
        r matches Err(e) ==> e is CommitmentError,
{
    PedersenCommitment::new(curve_type)
}

} // verus!
