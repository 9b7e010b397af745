//! Zero-knowledge proofs of commitment openings and Schnorr signatures.
//!
//! The proof is the Pedersen sigma protocol made non-interactive by
//! Fiat-Shamir: the prover publishes an auxiliary point `A = g*a + h*b`,
//! derives the challenge `c` by hashing the domain tag, the curve name, the
//! commitment and `A`, and answers with `s1 = a + c*x`, `s2 = b + c*r`.  The
//! verifier checks `g*s1 + h*s2 == A + c*C` and recomputes the challenge from
//! the transcript, which binds `A` to it.  The Schnorr signature is the same
//! shape over the single generator, with the nonce point recovered at
//! verification as `R' = s*G - c*P`.

use vstd::prelude::*;
use crate::curve::{generator_bytes, group_order, point_add_val, point_mul_val, point_ok, Point,
    Scalar};
use crate::error::{Error, Result};
use crate::hash::{sha256, sha256_of};
use crate::laurent::Share;
use crate::model::{append_bytes, be_val, bytes_equal, lemma_be_canon, nat_to_be, sub_bytes};
use crate::pedersen::PedersenCommitment;
use crate::types::CurveType;

verus! {

/// The domain-separation tag of the commitment proofs: the ASCII bytes of
/// "z-mpc-zkp".
pub open spec fn ds_zkp() -> Seq<u8> {
    seq![122u8, 45, 109, 112, 99, 45, 122, 107, 112]
}

/// The domain-separation tag of the signatures: the ASCII bytes of
/// "z-mpc-schnorr".
pub open spec fn ds_schnorr() -> Seq<u8> {
    seq![122u8, 45, 109, 112, 99, 45, 115, 99, 104, 110, 111, 114, 114]
}

/// The Fiat-Shamir transcript of a commitment proof.
pub open spec fn zkp_challenge_input(c: CurveType, commitment: Seq<u8>, public_point: Seq<u8>) -> Seq<u8> {
    ds_zkp() + c.spec_name_bytes() + commitment + public_point
}

/// The transcript of a signature.
pub open spec fn schnorr_challenge_input(c: CurveType, r: Seq<u8>, public_key: Seq<u8>, message: Seq<u8>) -> Seq<u8> {
    ds_schnorr() + c.spec_name_bytes() + r + public_key + message
}

/// A transcript hashed and reduced into the scalar field.
pub open spec fn challenge_scalar(c: CurveType, input: Seq<u8>) -> nat {
    be_val(sha256_of(input)) % group_order(c)
}

/// The canonical challenge bytes a proof on `(commitment, public_point)`
/// must carry.
pub open spec fn zkp_challenge_bytes(c: CurveType, commitment: Seq<u8>, public_point: Seq<u8>) -> Seq<u8> {
    nat_to_be(challenge_scalar(c, zkp_challenge_input(c, commitment, public_point)), 32)
}

/// The sigma-protocol equation `g*s1 + h*s2 == A + c*C`, over the curve
/// library's group operations, with both response halves and the challenge
/// reduced into the scalar field.
pub open spec fn zkp_equation_holds(c: CurveType, g: Seq<u8>, h: Seq<u8>, commitment: Seq<u8>, challenge: Seq<u8>, response: Seq<u8>, public_point: Seq<u8>) -> bool {
    let q = group_order(c);
    let s1 = nat_to_be(be_val(response.take(32)) % q, 32);
    let s2 = nat_to_be(be_val(response.skip(32)) % q, 32);
    let cc = nat_to_be(be_val(challenge) % q, 32);
    point_add_val(c, point_mul_val(c, g, s1), point_mul_val(c, h, s2)) == point_add_val(
        c,
        public_point,
        point_mul_val(c, commitment, cc),
    )
}

/// The prover's response discipline: the auxiliary point commits to the
/// nonces `(alpha, beta)`, and the two response halves answer the challenge
/// with `alpha + c*x` and `beta + c*r` over the scalar field.
pub open spec fn zkp_response_links(c: CurveType, g: Seq<u8>, h: Seq<u8>, challenge: Seq<u8>, response: Seq<u8>, public_point: Seq<u8>, x: Seq<u8>, rnd: Seq<u8>, alpha: nat, beta: nat) -> bool {
    let q = group_order(c);
    &&& alpha < q && beta < q
    &&& public_point == point_add_val(c, point_mul_val(c, g, nat_to_be(alpha, 32)),
        point_mul_val(c, h, nat_to_be(beta, 32)))
    &&& be_val(response.take(32)) == (alpha + be_val(challenge) * be_val(x)) % q
    &&& be_val(response.skip(32)) == (beta + be_val(challenge) * (be_val(rnd) % q)) % q
}

/// The signer's response discipline: the challenge is derived over the
/// nonce point `k*G`, and the response answers it with `k + c*x`.
pub open spec fn schnorr_response_links(c: CurveType, challenge: Seq<u8>, response: Seq<u8>, public_key: Seq<u8>, message: Seq<u8>, x: Seq<u8>, k: nat) -> bool {
    let q = group_order(c);
    &&& k < q
    &&& challenge == nat_to_be(challenge_scalar(c, schnorr_challenge_input(c, point_mul_val(c,
        generator_bytes(c), nat_to_be(k, 32)), public_key, message)), 32)
    &&& be_val(response) == (k + be_val(challenge) * be_val(x)) % q
}

/// What the verifier accepts: the group equation holds and the carried
/// challenge is exactly the transcript hash.
pub open spec fn zkp_accepts(c: CurveType, g: Seq<u8>, h: Seq<u8>, commitment: Seq<u8>, challenge: Seq<u8>, response: Seq<u8>, public_point: Seq<u8>) -> bool {
    &&& zkp_equation_holds(c, g, h, commitment, challenge, response, public_point)
    &&& challenge == zkp_challenge_bytes(c, commitment, public_point)
}

/// The nonce point a signature verifier recovers: `R' = s*G - c*P`, with the
/// negation taken as multiplication by `q - 1`.
pub open spec fn schnorr_r_prime(c: CurveType, response: Seq<u8>, challenge: Seq<u8>, public_key: Seq<u8>) -> Seq<u8> {
    let q = group_order(c);
    let s = nat_to_be(be_val(response) % q, 32);
    let negc = nat_to_be(((be_val(challenge) % q) * ((q - 1) as nat)) % q, 32);
    point_add_val(
        c,
        point_mul_val(c, generator_bytes(c), s),
        point_mul_val(c, public_key, negc),
    )
}

/// What the signature verifier accepts: the carried challenge equals the
/// transcript hash over the recovered nonce point.
pub open spec fn schnorr_accepts(c: CurveType, challenge: Seq<u8>, response: Seq<u8>, public_key: Seq<u8>, message: Seq<u8>) -> bool {
    challenge == nat_to_be(
        challenge_scalar(
            c,
            schnorr_challenge_input(
                c,
                schnorr_r_prime(c, response, challenge, public_key),
                public_key,
                message,
            ),
        ),
        32,
    )
}

/// Tampering the challenge of an accepted proof is always rejected: the
/// verifier re-derives the challenge from the commitment and the auxiliary
/// point alone, and the tampered bytes no longer match it.
pub proof fn lemma_challenge_tamper_rejected(c: CurveType, g: Seq<u8>, h: Seq<u8>, commitment: Seq<u8>, challenge: Seq<u8>, tampered: Seq<u8>, response: Seq<u8>, public_point: Seq<u8>)
    requires
        zkp_accepts(c, g, h, commitment, challenge, response, public_point),
        tampered != challenge,
    ensures
        !zkp_accepts(c, g, h, commitment, tampered, response, public_point),
{
}

/// A non-interactive proof of knowledge of a commitment opening.
#[derive(Debug, Clone)]
pub struct ZeroKnowledgeProof {
    pub curve_type: CurveType,
    pub commitment: Vec<u8>,
    pub challenge: Vec<u8>,
    pub response: Vec<u8>,
    pub public_point: Vec<u8>,
}

impl ZeroKnowledgeProof {
    /// Create an empty proof for a curve; `prove` fills it.
    pub fn new(curve_type: CurveType) -> (r: ZeroKnowledgeProof)
        ensures
            r.curve_type == curve_type,
            r.commitment@.len() == 0,
            r.challenge@.len() == 0,
            r.response@.len() == 0,
            r.public_point@.len() == 0,
    {
        ZeroKnowledgeProof {
            curve_type,
            commitment: Vec::new(),
            challenge: Vec::new(),
            response: Vec::new(),
            public_point: Vec::new(),
        }
    }

    /// Prove knowledge of `(value, randomness)` opening the Pedersen
    /// commitment to `value`: fills the commitment, the auxiliary point, the
    /// Fiat-Shamir challenge, and the 64-byte response `s1 || s2`.
    pub fn prove(&mut self, pedersen: &PedersenCommitment, value: &Scalar, randomness: &[u8]) -> (r: Result<()>)
        requires
            pedersen.wf(),
        ensures
            final(self).curve_type == old(self).curve_type,
            ({
                let ct = old(self).curve_type;
                let good = pedersen.curve_type == ct && value.curve_type == ct
                    && value.value@.len() == 32 && randomness@.len() == 32;
                &&& good ==> r is Ok
                &&& good ==> final(self).commitment@ == crate::pedersen::commit_val(ct,
                    pedersen.g.bytes@, pedersen.h.bytes@, value.value@, randomness@)
                &&& good ==> final(self).challenge@ == zkp_challenge_bytes(ct,
                    final(self).commitment@, final(self).public_point@)
                &&& good ==> final(self).response@.len() == 64 && point_ok(ct,
                    final(self).public_point@)
                &&& good ==> exists|alpha: nat, beta: nat|
                    #[trigger] zkp_response_links(ct, pedersen.g.bytes@, pedersen.h.bytes@,
                        final(self).challenge@, final(self).response@, final(self).public_point@,
                        value.value@, randomness@, alpha, beta)
                &&& !good ==> (r matches Err(e) && e is CurveError && *final(self) == *old(self))
            }),
    {
        let ct = self.curve_type;
        if pedersen.curve_type != ct || value.curve_type != ct {
            return Err(Error::CurveError("curve mismatch".to_owned()));
        }
        if value.value.len() != 32 || randomness.len() != 32 {
            return Err(Error::CurveError("invalid scalar length".to_owned()));
        }
        let alpha = crate::curve::sample_scalar_ct(ct);
        let beta = crate::curve::sample_scalar_ct(ct);
        let rnd_vec = crate::curve::bytes_to_vec(randomness);
        let commitment = pedersen.commit(value, &rnd_vec)?;
        let g_alpha = pedersen.g.mul(&alpha)?;
        let h_beta = pedersen.h.mul(&beta)?;
        let public_point = g_alpha.add(&h_beta)?;
        let pp_bytes = public_point.to_compressed_bytes()?;
        let challenge_input = self.create_challenge_input(commitment.as_slice(), pp_bytes.as_slice())?;
        let c = self.hash_to_scalar(challenge_input.as_slice())?;
        let c_x = c.mul(value)?;
        let s1 = alpha.add(&c_x)?;
        let r_scalar = crate::curve::reduce32(ct, randomness);
        let c_r = c.mul(&r_scalar)?;
        let s2 = beta.add(&c_r)?;
        let mut response: Vec<u8> = Vec::new();
        append_bytes(&mut response, s1.value.as_slice());
        append_bytes(&mut response, s2.value.as_slice());
        proof {
            lemma_be_canon(c.value@);
            assert(response@.len() == 64);
        }
        self.commitment = commitment;
        self.public_point = pp_bytes;
        self.challenge = c.value;
        self.response = response;
        proof {
            let ghost q = group_order(ct);
            crate::curve::lemma_group_order_large(ct);
            lemma_be_canon(alpha.value@);
            lemma_be_canon(beta.value@);
            assert(self.response@.take(32) =~= s1.value@);
            assert(self.response@.skip(32) =~= s2.value@);
            crate::model::lemma_mod_add_mul(q, alpha.val(), c.val(), value.val());
            crate::model::lemma_mod_add_mul(q, beta.val(), c.val(), r_scalar.val());
            assert(zkp_response_links(ct, pedersen.g.bytes@, pedersen.h.bytes@, self.challenge@,
                self.response@, self.public_point@, value.value@, randomness@, alpha.val(),
                beta.val()));
        }
        Ok(())
    }

    /// Verify the proof: a proof for another curve's parameters is simply
    /// invalid; a response that is not exactly 64 bytes is rejected; the
    /// carried points must decode; then the group equation is checked and the
    /// challenge is re-derived from the transcript.
    pub fn verify(&self, pedersen: &PedersenCommitment) -> (r: Result<bool>)
        requires
            pedersen.wf(),
        ensures
            ({
                let ct = self.curve_type;
                &&& pedersen.curve_type != ct ==> (r matches Ok(b) && b == false)
                &&& pedersen.curve_type == ct && self.response@.len() != 64 ==> (r matches Err(e)
                    && e is ZKProofError)
                &&& pedersen.curve_type == ct && self.response@.len() == 64
                    && self.challenge@.len() != 32 ==> (r matches Err(e) && e is CurveError)
                &&& pedersen.curve_type == ct && self.response@.len() == 64
                    && self.challenge@.len() == 32 && !(point_ok(ct, self.commitment@) && point_ok(
                    ct, self.public_point@)) ==> (r matches Err(e) && e is CurveError)
                &&& pedersen.curve_type == ct && self.response@.len() == 64
                    && self.challenge@.len() == 32 && point_ok(ct, self.commitment@) && point_ok(
                    ct, self.public_point@) ==> (r matches Ok(b) && (b <==> zkp_accepts(ct,
                    pedersen.g.bytes@, pedersen.h.bytes@, self.commitment@, self.challenge@,
                    self.response@, self.public_point@)))
            }),
    {
        let ct = self.curve_type;
        if pedersen.curve_type != ct {
            return Ok(false);
        }
        if self.response.len() != 64 {
            return Err(Error::ZKProofError("Invalid response length".to_owned()));
        }
        if self.challenge.len() != 32 {
            return Err(Error::CurveError("invalid scalar length".to_owned()));
        }
        let s1_bytes = sub_bytes(self.response.as_slice(), 0, 32);
        let s2_bytes = sub_bytes(self.response.as_slice(), 32, 64);
        let s1 = crate::curve::reduce32(ct, s1_bytes.as_slice());
        let s2 = crate::curve::reduce32(ct, s2_bytes.as_slice());
        let c = crate::curve::reduce32(ct, self.challenge.as_slice());
        let commitment_point = Point::from_compressed_bytes(ct, self.commitment.as_slice())?;
        let public_pt = Point::from_compressed_bytes(ct, self.public_point.as_slice())?;
        let g_s1 = pedersen.g.mul(&s1)?;
        let h_s2 = pedersen.h.mul(&s2)?;
        let lhs = g_s1.add(&h_s2)?;
        let c_commit = commitment_point.mul(&c)?;
        let rhs = public_pt.add(&c_commit)?;
        let equation = bytes_equal(lhs.bytes.as_slice(), rhs.bytes.as_slice());
        let challenge_input = self.create_challenge_input(
            self.commitment.as_slice(),
            self.public_point.as_slice(),
        )?;
        let c2 = self.hash_to_scalar(challenge_input.as_slice())?;
        let rebind = bytes_equal(self.challenge.as_slice(), c2.value.as_slice());
        proof {
            lemma_be_canon(s1.value@);
            lemma_be_canon(s2.value@);
            lemma_be_canon(c.value@);
            lemma_be_canon(c2.value@);
            assert(s1_bytes@ =~= self.response@.take(32));
            assert(s2_bytes@ =~= self.response@.skip(32));
        }
        Ok(equation && rebind)
    }

    /// Assemble the Fiat-Shamir transcript of a commitment proof.
    fn create_challenge_input(&self, commitment: &[u8], public_point: &[u8]) -> (r: Result<Vec<u8>>)
        ensures
            r matches Ok(v) && v@ == zkp_challenge_input(self.curve_type, commitment@, public_point@),
    {
        let mut input: Vec<u8> = Vec::new();
        let ds = vec![122u8, 45, 109, 112, 99, 45, 122, 107, 112];
        append_bytes(&mut input, ds.as_slice());
        let name = self.curve_type.name_bytes();
        append_bytes(&mut input, name.as_slice());
        append_bytes(&mut input, commitment);
        append_bytes(&mut input, public_point);
        proof {
            assert(input@ =~= zkp_challenge_input(self.curve_type, commitment@, public_point@));
        }
        Ok(input)
    }

    /// Hash a transcript and reduce it into the scalar field.
    fn hash_to_scalar(&self, input: &[u8]) -> (r: Result<Scalar>)
        ensures
            r matches Ok(s) && s.curve_type == self.curve_type && s.wf() && s.val()
                == challenge_scalar(self.curve_type, input@),
    {
        let digest = sha256(input);
        Ok(crate::curve::reduce32(self.curve_type, digest.as_slice()))
    }

    /// Prove knowledge of the opening of a commitment to a share value; the
    /// value bytes are reduced into the scalar field first.
    pub fn prove_share(&mut self, pedersen: &PedersenCommitment, share: &Share, randomness: &[u8]) -> (r: Result<()>)
        requires
            pedersen.wf(),
        ensures
            final(self).curve_type == old(self).curve_type,
            ({
                let ct = old(self).curve_type;
                let good = pedersen.curve_type == ct && share.value@.len() == 32
                    && randomness@.len() == 32;
                &&& good ==> r is Ok && final(self).commitment@
                    == crate::pedersen::commit_val(ct, pedersen.g.bytes@, pedersen.h.bytes@,
                    nat_to_be(be_val(share.value@) % group_order(ct), 32), randomness@)
                &&& good ==> final(self).challenge@ == zkp_challenge_bytes(ct,
                    final(self).commitment@, final(self).public_point@)
                &&& good ==> final(self).response@.len() == 64 && point_ok(ct,
                    final(self).public_point@)
                &&& !good ==> (r matches Err(e) && e is CurveError && *final(self) == *old(self))
            }),
    {
        if share.value.len() != 32 {
            return Err(Error::CurveError("invalid scalar length".to_owned()));
        }
        let value = crate::curve::reduce32(self.curve_type, share.value.as_slice());
        proof {
            lemma_be_canon(value.value@);
        }
        self.prove(pedersen, &value, randomness)
    }

    /// Serialise to the wire layout: curve tag, commitment, challenge,
    /// response, auxiliary point.  A proof whose fields do not have their
    /// curve's widths cannot be framed.
    pub fn to_bytes(&self) -> (r: Result<Vec<u8>>)
        ensures
            zkp_sized(*self) ==> (r matches Ok(v) && v@ == zkp_wire(*self)),
            !zkp_sized(*self) ==> (r matches Err(e) && e is SerializationError),
    {
        let pl: usize = match self.curve_type {
            CurveType::Secp256k1 => 33,
            CurveType::P256 => 33,
            CurveType::Edwards25519 => 32,
        };
        if self.commitment.len() != pl || self.challenge.len() != 32 || self.response.len() != 64
            || self.public_point.len() != pl {
            return Err(Error::SerializationError("proof fields have wrong widths".to_owned()));
        }
        let tag: u8 = match self.curve_type {
            CurveType::Secp256k1 => 1,
            CurveType::P256 => 2,
            CurveType::Edwards25519 => 3,
        };
        let mut out: Vec<u8> = Vec::new();
        out.push(tag);
        append_bytes(&mut out, self.commitment.as_slice());
        append_bytes(&mut out, self.challenge.as_slice());
        append_bytes(&mut out, self.response.as_slice());
        append_bytes(&mut out, self.public_point.as_slice());
        proof {
            assert(out@ =~= zkp_wire(*self));
        }
        Ok(out)
    }

    /// Parse the wire layout back into a proof.  Rejects an unknown curve
    /// tag and any total length other than the tagged curve's.
    pub fn from_bytes(bytes: &[u8]) -> (r: Result<ZeroKnowledgeProof>)
        ensures
            r matches Ok(p) ==> zkp_sized(p) && zkp_wire(p) == bytes@,
            ({
                let good = bytes@.len() > 0 && tag_curve(bytes@[0]) is Some && bytes@.len() == 97
                    + 2 * crate::curve::point_len(tag_curve(bytes@[0])->Some_0);
                &&& good ==> r is Ok
                &&& !good ==> (r matches Err(e) && e is SerializationError)
            }),
    {
        if bytes.len() == 0 {
            return Err(Error::SerializationError("empty proof encoding".to_owned()));
        }
        let curve_type = if bytes[0] == 1 {
            CurveType::Secp256k1
        } else if bytes[0] == 2 {
            CurveType::P256
        } else if bytes[0] == 3 {
            CurveType::Edwards25519
        } else {
            return Err(Error::SerializationError("unknown curve tag".to_owned()));
        };
        let pl: usize = match curve_type {
            CurveType::Secp256k1 => 33,
            CurveType::P256 => 33,
            CurveType::Edwards25519 => 32,
        };
        if bytes.len() != 97 + 2 * pl {
            return Err(Error::SerializationError("wrong proof encoding length".to_owned()));
        }
        let commitment = sub_bytes(bytes, 1, 1 + pl);
        let challenge = sub_bytes(bytes, 1 + pl, 33 + pl);
        let response = sub_bytes(bytes, 33 + pl, 97 + pl);
        let public_point = sub_bytes(bytes, 97 + pl, 97 + 2 * pl);
        let p = ZeroKnowledgeProof { curve_type, commitment, challenge, response, public_point };
        proof {
            assert(zkp_wire(p) =~= bytes@);
        }
        Ok(p)
    }

    /// The commitment the proof speaks about.
    pub fn commitment(&self) -> (r: &[u8])
        ensures
            r@ == self.commitment@,
    {
        self.commitment.as_slice()
    }

    /// The Fiat-Shamir challenge.
    pub fn challenge(&self) -> (r: &[u8])
        ensures
            r@ == self.challenge@,
    {
        self.challenge.as_slice()
    }

    /// The response `s1 || s2`.
    pub fn response(&self) -> (r: &[u8])
        ensures
            r@ == self.response@,
    {
        self.response.as_slice()
    }
}


/// The one-byte curve tag of the wire layouts.
pub open spec fn curve_tag(c: CurveType) -> u8 {
    match c {
        CurveType::Secp256k1 => 1,
        CurveType::P256 => 2,
        CurveType::Edwards25519 => 3,
    }
}

/// The curve a tag byte denotes, if any.
pub open spec fn tag_curve(t: u8) -> Option<CurveType> {
    if t == 1 {
        Some(CurveType::Secp256k1)
    } else if t == 2 {
        Some(CurveType::P256)
    } else if t == 3 {
        Some(CurveType::Edwards25519)
    } else {
        None
    }
}

/// A proof has the field widths of its curve: two compressed points, a
/// 32-byte challenge and a 64-byte response.
pub open spec fn zkp_sized(p: ZeroKnowledgeProof) -> bool {
    &&& p.commitment@.len() == crate::curve::point_len(p.curve_type)
    &&& p.challenge@.len() == 32
    &&& p.response@.len() == 64
    &&& p.public_point@.len() == crate::curve::point_len(p.curve_type)
}

/// The wire form of a proof: curve tag, commitment point, challenge scalar,
/// response `s1 || s2`, auxiliary point.
pub open spec fn zkp_wire(p: ZeroKnowledgeProof) -> Seq<u8> {
    seq![curve_tag(p.curve_type)] + p.commitment@ + p.challenge@ + p.response@ + p.public_point@
}

/// A signature has the field widths of its curve: a compressed public key,
/// a 32-byte challenge and a 32-byte response.
pub open spec fn sig_sized(s: SchnorrSignature) -> bool {
    &&& s.public_key@.len() == crate::curve::point_len(s.curve_type)
    &&& s.challenge@.len() == 32
    &&& s.response@.len() == 32
}

/// The wire form of a signature: curve tag, public key point, challenge
/// scalar, response scalar.
pub open spec fn sig_wire(s: SchnorrSignature) -> Seq<u8> {
    seq![curve_tag(s.curve_type)] + s.public_key@ + s.challenge@ + s.response@
}

/// The wire form determines the proof: two equally framed proofs with the
/// same encoding have the same fields.
pub proof fn lemma_zkp_wire_injective(p1: ZeroKnowledgeProof, p2: ZeroKnowledgeProof)
    requires
        zkp_sized(p1),
        zkp_sized(p2),
        zkp_wire(p1) == zkp_wire(p2),
    ensures
        p1.curve_type == p2.curve_type,
        p1.commitment@ == p2.commitment@,
        p1.challenge@ == p2.challenge@,
        p1.response@ == p2.response@,
        p1.public_point@ == p2.public_point@,
{
    assert(zkp_wire(p1)[0] == curve_tag(p1.curve_type));
    assert(zkp_wire(p2)[0] == curve_tag(p2.curve_type));
    let pl = crate::curve::point_len(p1.curve_type) as int;
    assert(p1.commitment@ =~= zkp_wire(p1).subrange(1, 1 + pl));
    assert(p2.commitment@ =~= zkp_wire(p2).subrange(1, 1 + pl));
    assert(p1.challenge@ =~= zkp_wire(p1).subrange(1 + pl, 33 + pl));
    assert(p2.challenge@ =~= zkp_wire(p2).subrange(1 + pl, 33 + pl));
    assert(p1.response@ =~= zkp_wire(p1).subrange(33 + pl, 97 + pl));
    assert(p2.response@ =~= zkp_wire(p2).subrange(33 + pl, 97 + pl));
    assert(p1.public_point@ =~= zkp_wire(p1).subrange(97 + pl, 97 + 2 * pl));
    assert(p2.public_point@ =~= zkp_wire(p2).subrange(97 + pl, 97 + 2 * pl));
}

/// A compressed Schnorr signature: the nonce point is recovered at
/// verification from the challenge and the response.
#[derive(Debug, Clone)]
pub struct SchnorrSignature {
    pub curve_type: CurveType,
    pub challenge: Vec<u8>,
    pub response: Vec<u8>,
    pub public_key: Vec<u8>,
}

impl SchnorrSignature {
    /// Create an empty signature for a curve; `sign` fills it.
    pub fn new(curve_type: CurveType) -> (r: SchnorrSignature)
        ensures
            r.curve_type == curve_type,
            r.challenge@.len() == 0,
            r.response@.len() == 0,
            r.public_key@.len() == 0,
    {
        SchnorrSignature { curve_type, challenge: Vec::new(), response: Vec::new(), public_key: Vec::new() }
    }

    /// Sign a message: draw a nonce `k`, publish the public key `x*G`,
    /// derive the challenge from the transcript over `R = k*G`, and answer
    /// with `s = k + c*x`.
    pub fn sign(&mut self, message: &[u8], private_key: &Scalar) -> (r: Result<()>)
        ensures
            final(self).curve_type == old(self).curve_type,
            ({
                let ct = old(self).curve_type;
                let good = private_key.curve_type == ct && private_key.value@.len() == 32;
                &&& good ==> r is Ok
                &&& good ==> final(self).public_key@ == point_mul_val(ct, generator_bytes(ct),
                    private_key.value@) && point_ok(ct, final(self).public_key@)
                &&& good ==> final(self).challenge@.len() == 32 && final(self).response@.len()
                    == 32
                &&& good ==> exists|k: nat|
                    #[trigger] schnorr_response_links(ct, final(self).challenge@,
                        final(self).response@, final(self).public_key@, message@,
                        private_key.value@, k)
                &&& !good ==> (r matches Err(e) && e is CurveError && *final(self) == *old(self))
            }),
    {
        let ct = self.curve_type;
        if private_key.curve_type != ct || private_key.value.len() != 32 {
            return Err(Error::CurveError("invalid private key".to_owned()));
        }
        let k = crate::curve::sample_scalar_ct(ct);
        let g = crate::curve::generator_ct(ct);
        let r_point = g.mul(&k)?;
        let public_key = g.mul(private_key)?;
        let pk_bytes = public_key.to_compressed_bytes()?;
        let challenge_input = self.create_schnorr_challenge_input(
            r_point.bytes.as_slice(),
            pk_bytes.as_slice(),
            message,
        )?;
        let digest = sha256(challenge_input.as_slice());
        let c = crate::curve::reduce32(ct, digest.as_slice());
        let c_sk = c.mul(private_key)?;
        let s = k.add(&c_sk)?;
        self.public_key = pk_bytes;
        self.challenge = c.value;
        self.response = s.value;
        proof {
            let ghost q = group_order(ct);
            crate::curve::lemma_group_order_large(ct);
            lemma_be_canon(k.value@);
            lemma_be_canon(c.value@);
            crate::model::lemma_mod_add_mul(q, k.val(), c.val(), private_key.val());
            assert(schnorr_response_links(ct, self.challenge@, self.response@, self.public_key@,
                message@, private_key.value@, k.val()));
        }
        Ok(())
    }

    /// Verify the signature: recover `R' = s*G - c*P` and accept exactly
    /// when the transcript hash over `R'` equals the carried challenge.
    pub fn verify(&self, message: &[u8]) -> (r: Result<bool>)
        ensures
            ({
                let ct = self.curve_type;
                &&& self.response@.len() != 32 || self.challenge@.len() != 32 ==> (r matches Err(e)
                    && e is CurveError)
                &&& self.response@.len() == 32 && self.challenge@.len() == 32 && !point_ok(ct,
                    self.public_key@) ==> (r matches Err(e) && e is CurveError)
                &&& self.response@.len() == 32 && self.challenge@.len() == 32 && point_ok(ct,
                    self.public_key@) ==> (r matches Ok(b) && (b <==> schnorr_accepts(ct,
                    self.challenge@, self.response@, self.public_key@, message@)))
            }),
    {
        let ct = self.curve_type;
        if self.response.len() != 32 || self.challenge.len() != 32 {
            return Err(Error::CurveError("invalid scalar length".to_owned()));
        }
        let s = crate::curve::reduce32(ct, self.response.as_slice());
        let c = crate::curve::reduce32(ct, self.challenge.as_slice());
        let g = crate::curve::generator_ct(ct);
        let public_key = Point::from_compressed_bytes(ct, self.public_key.as_slice())?;
        let s_g = g.mul(&s)?;
        let q_minus_one = crate::curve::order_minus_one_ct(ct);
        let c_neg = c.mul(&q_minus_one)?;
        let c_neg_p = public_key.mul(&c_neg)?;
        let r_prime = s_g.add(&c_neg_p)?;
        let challenge_input = self.create_schnorr_challenge_input(
            r_prime.bytes.as_slice(),
            self.public_key.as_slice(),
            message,
        )?;
        let digest = sha256(challenge_input.as_slice());
        let c2 = crate::curve::reduce32(ct, digest.as_slice());
        proof {
            lemma_be_canon(s.value@);
            lemma_be_canon(c.value@);
            lemma_be_canon(c_neg.value@);
            lemma_be_canon(c2.value@);
        }
        Ok(bytes_equal(self.challenge.as_slice(), c2.value.as_slice()))
    }

    /// Serialise to the wire layout: curve tag, public key, challenge,
    /// response.
    pub fn to_bytes(&self) -> (r: Result<Vec<u8>>)
        ensures
            sig_sized(*self) ==> (r matches Ok(v) && v@ == sig_wire(*self)),
            !sig_sized(*self) ==> (r matches Err(e) && e is SerializationError),
    {
        let pl: usize = match self.curve_type {
            CurveType::Secp256k1 => 33,
            CurveType::P256 => 33,
            CurveType::Edwards25519 => 32,
        };
        if self.public_key.len() != pl || self.challenge.len() != 32 || self.response.len() != 32 {
            return Err(Error::SerializationError("signature fields have wrong widths".to_owned()));
        }
        let tag: u8 = match self.curve_type {
            CurveType::Secp256k1 => 1,
            CurveType::P256 => 2,
            CurveType::Edwards25519 => 3,
        };
        let mut out: Vec<u8> = Vec::new();
        out.push(tag);
        append_bytes(&mut out, self.public_key.as_slice());
        append_bytes(&mut out, self.challenge.as_slice());
        append_bytes(&mut out, self.response.as_slice());
        proof {
            assert(out@ =~= sig_wire(*self));
        }
        Ok(out)
    }

    /// Parse the wire layout back into a signature.
    pub fn from_bytes(bytes: &[u8]) -> (r: Result<SchnorrSignature>)
        ensures
            r matches Ok(s) ==> sig_sized(s) && sig_wire(s) == bytes@,
            ({
                let good = bytes@.len() > 0 && tag_curve(bytes@[0]) is Some && bytes@.len() == 65
                    + crate::curve::point_len(tag_curve(bytes@[0])->Some_0);
                &&& good ==> r is Ok
                &&& !good ==> (r matches Err(e) && e is SerializationError)
            }),
    {
        if bytes.len() == 0 {
            return Err(Error::SerializationError("empty signature encoding".to_owned()));
        }
        let curve_type = if bytes[0] == 1 {
            CurveType::Secp256k1
        } else if bytes[0] == 2 {
            CurveType::P256
        } else if bytes[0] == 3 {
            CurveType::Edwards25519
        } else {
            return Err(Error::SerializationError("unknown curve tag".to_owned()));
        };
        let pl: usize = match curve_type {
            CurveType::Secp256k1 => 33,
            CurveType::P256 => 33,
            CurveType::Edwards25519 => 32,
        };
        if bytes.len() != 65 + pl {
            return Err(Error::SerializationError("wrong signature encoding length".to_owned()));
        }
        let public_key = sub_bytes(bytes, 1, 1 + pl);
        let challenge = sub_bytes(bytes, 1 + pl, 33 + pl);
        let response = sub_bytes(bytes, 33 + pl, 65 + pl);
        let s = SchnorrSignature { curve_type, public_key, challenge, response };
        proof {
            assert(sig_wire(s) =~= bytes@);
        }
        Ok(s)
    }

    /// Assemble the transcript of a signature.
    fn create_schnorr_challenge_input(&self, r: &[u8], public_key: &[u8], message: &[u8]) -> (res: Result<Vec<u8>>)
        ensures
            res matches Ok(v) && v@ == schnorr_challenge_input(self.curve_type, r@, public_key@, message@),
    {
        let mut input: Vec<u8> = Vec::new();
        let ds = vec![122u8, 45, 109, 112, 99, 45, 115, 99, 104, 110, 111, 114, 114];
        append_bytes(&mut input, ds.as_slice());
        let name = self.curve_type.name_bytes();
        append_bytes(&mut input, name.as_slice());
        append_bytes(&mut input, r);
        append_bytes(&mut input, public_key);
        append_bytes(&mut input, message);
        proof {
            assert(input@ =~= schnorr_challenge_input(self.curve_type, r@, public_key@, message@));
        }
        Ok(input)
    }
}

/// Prove a committed share's opening.
pub fn prove_committed_share(pedersen: &PedersenCommitment, share: &Share, randomness: &[u8], curve_type: CurveType) -> (r: Result<ZeroKnowledgeProof>)
    requires
        pedersen.wf(),
    ensures
        ({
            let good = pedersen.curve_type == curve_type && share.value@.len() == 32
                && randomness@.len() == 32;
            &&& good ==> (r matches Ok(p) && p.curve_type == curve_type && p.commitment@
                == crate::pedersen::commit_val(curve_type, pedersen.g.bytes@, pedersen.h.bytes@,
                nat_to_be(be_val(share.value@) % group_order(curve_type), 32), randomness@)
                && p.challenge@ == zkp_challenge_bytes(curve_type, p.commitment@, p.public_point@)
                && p.response@.len() == 64 && point_ok(curve_type, p.public_point@))
            &&& !good ==> (r matches Err(e) && e is CurveError)
        }),
{
    let mut proof = ZeroKnowledgeProof::new(curve_type);
    proof.prove_share(pedersen, share, randomness)?;
    Ok(proof)
}

/// Verify a committed share's proof.
pub fn verify_committed_share_proof(proof: &ZeroKnowledgeProof, pedersen: &PedersenCommitment) -> (r: Result<bool>)
    requires
        pedersen.wf(),
    ensures
        ({
            let ct = proof.curve_type;
            &&& pedersen.curve_type != ct ==> (r matches Ok(b) && b == false)
            &&& pedersen.curve_type == ct && proof.response@.len() != 64 ==> (r matches Err(e)
                && e is ZKProofError)
            &&& pedersen.curve_type == ct && proof.response@.len() == 64 && proof.challenge@.len()
                != 32 ==> (r matches Err(e) && e is CurveError)
            &&& pedersen.curve_type == ct && proof.response@.len() == 64 && proof.challenge@.len()
                == 32 && !(point_ok(ct, proof.commitment@) && point_ok(ct, proof.public_point@))
                ==> (r matches Err(e) && e is CurveError)
            &&& pedersen.curve_type == ct && proof.response@.len() == 64 && proof.challenge@.len()
                == 32 && point_ok(ct, proof.commitment@) && point_ok(ct, proof.public_point@) ==> (
            r matches Ok(b) && (b <==> zkp_accepts(ct, pedersen.g.bytes@, pedersen.h.bytes@,
                proof.commitment@, proof.challenge@, proof.response@, proof.public_point@)))
        }),
{
    proof.verify(pedersen)
}

/// Sign a message with a private key.
pub fn sign_message(message: &[u8], private_key: &Scalar, curve_type: CurveType) -> (r: Result<SchnorrSignature>)
    ensures
        ({
            let good = private_key.curve_type == curve_type && private_key.value@.len() == 32;
            &&& good ==> (r matches Ok(s) && s.curve_type == curve_type && s.public_key@
                == point_mul_val(curve_type, generator_bytes(curve_type), private_key.value@)
                && s.challenge@.len() == 32 && s.response@.len() == 32 && point_ok(curve_type,
                s.public_key@))
            &&& !good ==> (r matches Err(e) && e is CurveError)
        }),
{
    let mut signature = SchnorrSignature::new(curve_type);
    signature.sign(message, private_key)?;
    Ok(signature)
}

/// Verify a Schnorr signature on a message.
pub fn verify_signature(signature: &SchnorrSignature, message: &[u8]) -> (r: Result<bool>)
    ensures
        signature.response@.len() == 32 && signature.challenge@.len() == 32 && point_ok(
            signature.curve_type, signature.public_key@) ==> (r matches Ok(b) && (b
            <==> schnorr_accepts(signature.curve_type, signature.challenge@, signature.response@,
            signature.public_key@, message@))),
{
    signature.verify(message)
}

/// Verify a batch of proofs against one parameter set, stopping at the first
/// failure.
pub fn batch_verify_proofs(proofs: &[ZeroKnowledgeProof], pedersen: &PedersenCommitment) -> (r: Result<bool>)
    requires
        pedersen.wf(),
    ensures
        ({
            let good = forall|j: int|
                0 <= j < proofs@.len() ==> (#[trigger] proofs@[j]).curve_type
                    == pedersen.curve_type && proofs@[j].response@.len() == 64
                    && proofs@[j].challenge@.len() == 32 && point_ok(pedersen.curve_type,
                    proofs@[j].commitment@) && point_ok(pedersen.curve_type,
                    proofs@[j].public_point@);
            good ==> (r matches Ok(b) && (b <==> forall|j: int|
                0 <= j < proofs@.len() ==> zkp_accepts(pedersen.curve_type, pedersen.g.bytes@,
                    pedersen.h.bytes@, (#[trigger] proofs@[j]).commitment@, proofs@[j].challenge@,
                    proofs@[j].response@, proofs@[j].public_point@)))
        }),
{
    let mut i: usize = 0;
    while i < proofs.len()
        invariant
            pedersen.wf(),
            i <= proofs@.len(),
            forall|j: int|
                0 <= j < i ==> ((#[trigger] proofs@[j]).curve_type == pedersen.curve_type
                    && proofs@[j].response@.len() == 64 && proofs@[j].challenge@.len() == 32
                    && point_ok(pedersen.curve_type, proofs@[j].commitment@) && point_ok(
                    pedersen.curve_type, proofs@[j].public_point@)) ==> zkp_accepts(
                    pedersen.curve_type, pedersen.g.bytes@, pedersen.h.bytes@,
                    proofs@[j].commitment@, proofs@[j].challenge@, proofs@[j].response@,
                    proofs@[j].public_point@),
        decreases proofs@.len() - i,
    {
        let ok = proofs[i].verify(pedersen)?;
        if !ok {
            proof {
                if proofs@[i as int].curve_type == pedersen.curve_type
                    && proofs@[i as int].response@.len() == 64 && proofs@[i as int].challenge@.len()
                    == 32 && point_ok(pedersen.curve_type, proofs@[i as int].commitment@)
                    && point_ok(pedersen.curve_type, proofs@[i as int].public_point@) {
                    assert(!zkp_accepts(pedersen.curve_type, pedersen.g.bytes@, pedersen.h.bytes@,
                        proofs@[i as int].commitment@, proofs@[i as int].challenge@,
                        proofs@[i as int].response@, proofs@[i as int].public_point@));
                }
            }
            return Ok(false);
        }
        i += 1;
    }
    Ok(true)
}

} // verus!
