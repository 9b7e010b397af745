//! Protocol messages, the participant table, and the protocol coordinator.
//!
//! The coordinator is the state machine of one shareholder role: it moves
//! through Uninitialised, Initialised, Dealt, Verified and Reconstructed, and
//! every cryptographic decision it takes is made here, from plain values to
//! plain values.  Whatever carries the messages (a channel, an HTTP
//! transport) performs the sends and receives and hands the payloads back.

use vstd::prelude::*;
use crate::curve::{group_order, point_ok};
use crate::error::{Error, Result};
use crate::laurent::{LaurentSeries, Share};
use crate::model::be_val;
use crate::pedersen::{share_opens, CommittedShare, PedersenCommitment};
use crate::types::{CurveType, ReconstructionResult, ShareId, SharingParams};
use crate::zkp::{zkp_accepts, ZeroKnowledgeProof};
use std::collections::HashMap;

verus! {

broadcast use vstd::std_specs::hash::axiom_u32_obeys_hash_table_key_model;

/// The messages of the sharing protocol.
#[derive(Debug, Clone)]
pub enum NetworkMessage {
    /// Dealer-side broadcast of shares, commitments and proofs.
    ShareDistribution {
        sender_id: ShareId,
        shares: Vec<Share>,
        commitments: Vec<CommittedShare>,
        proofs: Vec<ZeroKnowledgeProof>,
        curve_type: CurveType,
    },
    /// Ask a peer to check a commitment opening.
    CommitmentVerification {
        sender_id: ShareId,
        commitment: Vec<u8>,
        value: Vec<u8>,
        randomness: Vec<u8>,
        curve_type: CurveType,
    },
    /// Answer to a commitment check.
    CommitmentVerificationResponse { sender_id: ShareId, commitment: Vec<u8>, is_valid: bool },
    /// Ask a peer to check a proof.
    ProofVerification { sender_id: ShareId, proof: ZeroKnowledgeProof },
    /// Answer to a proof check.
    ProofVerificationResponse { sender_id: ShareId, proof_commitment: Vec<u8>, is_valid: bool },
    /// Ask a peer to reconstruct from shares.
    SecretReconstruction { sender_id: ShareId, shares: Vec<Share>, curve_type: CurveType },
    /// Answer to a reconstruction request.
    SecretReconstructionResponse {
        sender_id: ShareId,
        secret: Vec<u8>,
        participants_used: Vec<ShareId>,
        is_valid: bool,
    },
    /// Liveness signal.
    Heartbeat { sender_id: ShareId, timestamp: u64 },
    /// A typed failure, carrying only a non-sensitive message.
    Error { sender_id: ShareId, error: String },
}

/// A known peer.
#[derive(Debug, Clone)]
pub struct Participant {
    pub id: ShareId,
    pub address: String,
    pub curve_type: CurveType,
    pub is_online: bool,
    pub last_heartbeat: u64,
}

/// The participant table: peers keyed by share identifier.
pub struct ParticipantTable {
    pub table: HashMap<ShareId, Participant>,
}

impl ParticipantTable {
    /// An empty table.
    pub fn new() -> (r: ParticipantTable)
        ensures
            r.table@ == Map::<ShareId, Participant>::empty(),
    {
        ParticipantTable { table: HashMap::new() }
    }

    /// Add or replace a peer under its identifier.
    pub fn add_participant(&mut self, participant: Participant)
        ensures
            final(self).table@ == old(self).table@.insert(participant.id, participant),
    {
        let id = participant.id;
        self.table.insert(id, participant);
    }

    /// Remove a peer.
    pub fn remove_participant(&mut self, participant_id: ShareId)
        ensures
            final(self).table@ == old(self).table@.remove(participant_id),
    {
        self.table.remove(&participant_id);
    }

    /// Whether a peer is known.
    pub fn contains(&self, participant_id: ShareId) -> (r: bool)
        ensures
            r == self.table@.dom().contains(participant_id),
    {
        self.table.contains_key(&participant_id)
    }

    /// Record a heartbeat: the peer, if known, is marked online with the
    /// new timestamp; an unknown sender is ignored.
    pub fn record_heartbeat(&mut self, sender_id: ShareId, timestamp: u64)
        ensures
            !old(self).table@.dom().contains(sender_id) ==> final(self).table@ == old(self).table@,
            old(self).table@.dom().contains(sender_id) ==> final(self).table@ == old(
                self,
            ).table@.insert(
                sender_id,
                Participant {
                    is_online: true,
                    last_heartbeat: timestamp,
                    ..old(self).table@[sender_id]
                },
            ),
    {
        match self.table.get(&sender_id) {
            Some(existing) => {
                let updated = Participant {
                    id: existing.id,
                    address: existing.address.clone(),
                    curve_type: existing.curve_type,
                    is_online: true,
                    last_heartbeat: timestamp,
                };
                proof {
                    assert(updated.address@ == old(self).table@[sender_id].address@);
                }
                self.table.insert(sender_id, updated);
            },
            None => {},
        }
    }
}

/// The coordinator's lifecycle.
#[derive(Debug, Clone, Copy, PartialEq, Eq, Structural)]
pub enum CoordinatorState {
    Uninitialised,
    Initialised,
    Dealt,
    Verified,
    Reconstructed,
}

/// Every commitment binds to its share value under the curve's derived
/// parameters.
pub open spec fn commitments_open(c: CurveType, commitments: Seq<CommittedShare>) -> bool {
    forall|j: int|
        0 <= j < commitments.len() ==> share_opens(c, (#[trigger] commitments[j]).share.value@,
            commitments[j].commitment@, commitments[j].randomness@)
}

/// Every proof verifies under the curve's derived parameters.
pub open spec fn proofs_accepted(c: CurveType, proofs: Seq<ZeroKnowledgeProof>) -> bool {
    forall|j: int|
        0 <= j < proofs.len() ==> zkp_accepts(c, crate::curve::generator_bytes(c),
            crate::pedersen::h_bytes(c), (#[trigger] proofs[j]).commitment@, proofs[j].challenge@,
            proofs[j].response@, proofs[j].public_point@)
}

/// All commitments bind and all proofs verify: what the coordinator demands
/// of an incoming distribution.
pub open spec fn distribution_valid(c: CurveType, commitments: Seq<CommittedShare>, proofs: Seq<
    ZeroKnowledgeProof,
>) -> bool {
    commitments_open(c, commitments) && proofs_accepted(c, proofs)
}

/// The share and randomness widths that make the commitments checkable.
pub open spec fn commitments_shaped(commitments: Seq<CommittedShare>) -> bool {
    forall|j: int|
        0 <= j < commitments.len() ==> (#[trigger] commitments[j]).share.value@.len() == 32
            && commitments[j].randomness@.len() == 32
}

/// The curve tags, widths and point encodings that make the proofs
/// checkable.
pub open spec fn proofs_shaped(c: CurveType, proofs: Seq<ZeroKnowledgeProof>) -> bool {
    forall|j: int|
        0 <= j < proofs.len() ==> (#[trigger] proofs[j]).curve_type == c
            && proofs[j].response@.len() == 64 && proofs[j].challenge@.len() == 32 && point_ok(c,
            proofs[j].commitment@) && point_ok(c, proofs[j].public_point@)
}

/// The lengths and curve tags that make a distribution checkable at all.
pub open spec fn distribution_shaped(c: CurveType, commitments: Seq<CommittedShare>, proofs: Seq<
    ZeroKnowledgeProof,
>) -> bool {
    commitments_shaped(commitments) && proofs_shaped(c, proofs)
}

/// Check every commitment of a distribution against the held parameters,
/// stopping at the first failure.  On well-shaped, all-binding commitments
/// this always succeeds, and success of well-shaped input means every
/// commitment binds.
fn check_commitments(pedersen: &PedersenCommitment, commitments: &[CommittedShare]) -> (r: Result<()>)
    requires
        pedersen.wf(),
    ensures
        commitments_shaped(commitments@) && commitments_open(pedersen.curve_type, commitments@) ==> r is Ok,
        r is Ok ==> (commitments_shaped(commitments@) ==> commitments_open(pedersen.curve_type, commitments@)),
        r matches Err(e) ==> e is CommitmentError || e is CurveError,
{
    proof {
        pedersen.lemma_wf_h();
    }
    let ct = pedersen.curve_type;
    let mut j: usize = 0;
    while j < commitments.len()
        invariant
            pedersen.wf(),
            pedersen.curve_type == ct,
            pedersen.g.bytes@ == crate::curve::generator_bytes(ct),
            pedersen.h.bytes@ == crate::pedersen::h_bytes(ct),
            j <= commitments@.len(),
            forall|t: int|
                0 <= t < j ==> ((#[trigger] commitments@[t]).share.value@.len() == 32
                    && commitments@[t].randomness@.len() == 32) ==> share_opens(ct,
                    commitments@[t].share.value@, commitments@[t].commitment@,
                    commitments@[t].randomness@),
        decreases commitments@.len() - j,
    {
        let ok = pedersen.verify_share_commitment(
            &commitments[j].share,
            &commitments[j].commitment,
            &commitments[j].randomness,
        );
        match ok {
            Ok(true) => {},
            Ok(false) => {
                return Err(Error::CommitmentError("Invalid commitment".to_owned()));
            },
            Err(e) => {
                return Err(e);
            },
        }
        j += 1;
    }
    Ok(())
}

/// Check every proof of a distribution against the held parameters,
/// stopping at the first failure.  On well-shaped, all-verifying proofs
/// this always succeeds, and success of well-shaped input means every
/// proof verifies.
fn check_proofs(pedersen: &PedersenCommitment, proofs: &[ZeroKnowledgeProof]) -> (r: Result<()>)
    requires
        pedersen.wf(),
    ensures
        proofs_shaped(pedersen.curve_type, proofs@) && proofs_accepted(pedersen.curve_type, proofs@) ==> r is Ok,
        r is Ok ==> (proofs_shaped(pedersen.curve_type, proofs@) ==> proofs_accepted(pedersen.curve_type, proofs@)),
        r matches Err(e) ==> e is ZKProofError || e is CurveError,
{
    proof {
        pedersen.lemma_wf_h();
    }
    let ct = pedersen.curve_type;
    let mut k: usize = 0;
    while k < proofs.len()
        invariant
            pedersen.wf(),
            pedersen.curve_type == ct,
            pedersen.g.bytes@ == crate::curve::generator_bytes(ct),
            pedersen.h.bytes@ == crate::pedersen::h_bytes(ct),
            k <= proofs@.len(),
            forall|t: int|
                0 <= t < k ==> ((#[trigger] proofs@[t]).curve_type == ct
                    && proofs@[t].response@.len() == 64 && proofs@[t].challenge@.len() == 32
                    && point_ok(ct, proofs@[t].commitment@) && point_ok(ct,
                    proofs@[t].public_point@)) ==> zkp_accepts(ct,
                    crate::curve::generator_bytes(ct), crate::pedersen::h_bytes(ct),
                    proofs@[t].commitment@, proofs@[t].challenge@, proofs@[t].response@,
                    proofs@[t].public_point@),
        decreases proofs@.len() - k,
    {
        let ok = proofs[k].verify(pedersen);
        match ok {
            Ok(true) => {},
            Ok(false) => {
                return Err(Error::ZKProofError("Invalid proof".to_owned()));
            },
            Err(e) => {
                return Err(e);
            },
        }
        k += 1;
    }
    Ok(())
}

/// The protocol coordinator of one shareholder role.
pub struct ProtocolCoordinator {
    pub node_id: ShareId,
    pub state: CoordinatorState,
    pub laurent: Option<LaurentSeries>,
    pub pedersen: Option<PedersenCommitment>,
}

impl ProtocolCoordinator {
    /// Once initialised, the coordinator holds a well-formed Laurent engine
    /// and commitment parameters of the same curve.
    pub open spec fn wf(self) -> bool {
        self.state != CoordinatorState::Uninitialised ==> {
            &&& self.laurent matches Some(ls) && ls.wf() && ls.threshold >= 2 && ls.participants
                >= ls.threshold
            &&& self.pedersen matches Some(pc) && pc.wf() && (self.laurent matches Some(ls2)
                && pc.curve_type == ls2.curve_type)
        }
    }

    /// The coordinator's curve, once initialised.
    pub open spec fn curve(self) -> CurveType
        recommends
            self.laurent is Some,
    {
        self.laurent->Some_0.curve_type
    }

    /// A fresh coordinator, not yet initialised.
    pub fn new(node_id: ShareId) -> (r: ProtocolCoordinator)
        ensures
            r.node_id == node_id,
            r.state == CoordinatorState::Uninitialised,
            r.laurent is None,
            r.pedersen is None,
            r.wf(),
    {
        ProtocolCoordinator {
            node_id,
            state: CoordinatorState::Uninitialised,
            laurent: None,
            pedersen: None,
        }
    }

    /// Set up the Laurent engine and the commitment parameters.
    /// Re-initialising is a failure and changes nothing; so are rejected
    /// parameters.
    pub fn initialize(&mut self, params: &SharingParams) -> (r: Result<()>)
        requires
            old(self).wf(),
        ensures
            final(self).wf(),
            final(self).node_id == old(self).node_id,
            old(self).state != CoordinatorState::Uninitialised ==> (r matches Err(e)
                && e is InvalidInput && *final(self) == *old(self)),
            old(self).state == CoordinatorState::Uninitialised && (params.threshold < 2
                || params.participants < params.threshold || params.threshold > 0xFFFF_FFFF
                || params.participants > 0xFFFF_FFFF) ==> (r matches Err(e) && e is InvalidInput
                && *final(self) == *old(self)),
            r is Ok ==> final(self).state == CoordinatorState::Initialised
                && (final(self).laurent matches Some(ls) && ls.curve_type == params.curve_type
                && ls.threshold == params.threshold && ls.participants == params.participants),
            old(self).state == CoordinatorState::Uninitialised && params.threshold >= 2
                && params.participants >= params.threshold && params.threshold <= 0xFFFF_FFFF
                && params.participants <= 0xFFFF_FFFF && (exists|j: int| #[trigger] crate::pedersen::h_index(params.curve_type, j)) ==> r is Ok,
    {
        if !matches!(self.state, CoordinatorState::Uninitialised) {
            return Err(Error::InvalidInput("protocol already initialized".to_owned()));
        }
        crate::laurent::validate_params(params)?;
        if params.threshold > 0xFFFF_FFFF as usize || params.participants > 0xFFFF_FFFF as usize {
            return Err(Error::InvalidInput("participant count out of range".to_owned()));
        }
        let laurent = LaurentSeries::new(params)?;
        let pedersen = PedersenCommitment::new(params.curve_type)?;
        self.laurent = Some(laurent);
        self.pedersen = Some(pedersen);
        self.state = CoordinatorState::Initialised;
        Ok(())
    }

    /// Dealer side: generate all shares, commit to each with fresh
    /// randomness, prove each opening, and wrap everything in a
    /// `ShareDistribution` message.
    pub fn distribute(&mut self) -> (r: Result<NetworkMessage>)
        requires
            old(self).wf(),
        ensures
            final(self).wf(),
            final(self).node_id == old(self).node_id,
            old(self).state != CoordinatorState::Initialised ==> (r matches Err(e)
                && e is InvalidInput && *final(self) == *old(self)),
            old(self).state == CoordinatorState::Initialised ==> r is Ok,
            r is Ok ==> final(self).state == CoordinatorState::Dealt && final(self).laurent == old(
                self,
            ).laurent && final(self).pedersen == old(self).pedersen,
            r matches Ok(msg) ==> (msg matches NetworkMessage::ShareDistribution {
                sender_id,
                shares,
                commitments,
                proofs,
                curve_type,
            } && {
                let ls = old(self).laurent->Some_0;
                &&& sender_id == old(self).node_id
                &&& curve_type == ls.curve_type
                &&& shares@.len() == ls.participants
                &&& commitments@.len() == ls.participants
                &&& proofs@.len() == ls.participants
                &&& forall|j: int|
                    0 <= j < shares@.len() ==> (#[trigger] shares@[j]).id == j + 1
                        && shares@[j].value@.len() == 32 && be_val(shares@[j].value@)
                        == ls.share_val((j + 1) as nat)
                &&& forall|j: int|
                    0 <= j < commitments@.len() ==> (#[trigger] commitments@[j]).share.value@
                        == shares@[j].value@ && commitments@[j].randomness@.len() == 32
                        && share_opens(ls.curve_type, shares@[j].value@,
                        commitments@[j].commitment@, commitments@[j].randomness@)
                &&& forall|j: int|
                    0 <= j < proofs@.len() ==> (#[trigger] proofs@[j]).curve_type == ls.curve_type
                        && proofs@[j].response@.len() == 64 && proofs@[j].commitment@
                        == commitments@[j].commitment@
            }),
    {
        if !matches!(self.state, CoordinatorState::Initialised) {
            return Err(Error::InvalidInput("protocol not ready to distribute".to_owned()));
        }
        let laurent = match &self.laurent {
            Some(ls) => ls,
            None => {
                return Err(Error::InvalidInput("protocol not initialized".to_owned()));
            },
        };
        let pedersen = match &self.pedersen {
            Some(pc) => pc,
            None => {
                return Err(Error::InvalidInput("protocol not initialized".to_owned()));
            },
        };
        proof {
            pedersen.lemma_wf_h();
        }
        let ct = laurent.curve_type;
        let shares = laurent.generate_shares()?;
        let mut commitments: Vec<CommittedShare> = Vec::new();
        let mut proofs: Vec<ZeroKnowledgeProof> = Vec::new();
        let mut j: usize = 0;
        while j < shares.len()
            invariant
                pedersen.wf(),
                pedersen.curve_type == ct,
                pedersen.g.bytes@ == crate::curve::generator_bytes(ct),
                pedersen.h.bytes@ == crate::pedersen::h_bytes(ct),
                j <= shares@.len(),
                commitments@.len() == j,
                proofs@.len() == j,
                forall|t: int| 0 <= t < shares@.len() ==> (#[trigger] shares@[t]).value@.len() == 32,
                forall|t: int|
                    0 <= t < j ==> (#[trigger] commitments@[t]).share.value@ == shares@[t].value@
                        && commitments@[t].randomness@.len() == 32 && share_opens(ct,
                        shares@[t].value@, commitments@[t].commitment@,
                        commitments@[t].randomness@),
                forall|t: int|
                    0 <= t < j ==> (#[trigger] proofs@[t]).curve_type == ct
                        && proofs@[t].response@.len() == 64 && proofs@[t].commitment@
                        == commitments@[t].commitment@,
            decreases shares@.len() - j,
        {
            let share = &shares[j];
            let randomness = pedersen.generate_randomness();
            let value = crate::curve::reduce32(ct, share.value.as_slice());
            proof {
                crate::model::lemma_be_canon(value.value@);
            }
            let commitment = pedersen.commit(&value, &randomness)?;
            let proof_obj = crate::zkp::prove_committed_share(
                pedersen,
                share,
                randomness.as_slice(),
                ct,
            )?;
            let committed = CommittedShare::new(
                Share {
                    id: share.id,
                    value: share.value.clone(),
                    commitment: None,
                    proof: None,
                },
                commitment,
                randomness,
            );
            commitments.push(committed);
            proofs.push(proof_obj);
            j += 1;
        }
        self.state = CoordinatorState::Dealt;
        Ok(NetworkMessage::ShareDistribution {
            sender_id: self.node_id,
            shares,
            commitments,
            proofs,
            curve_type: ct,
        })
    }

    /// Receiver side: check every commitment and every proof of an incoming
    /// distribution.  The first failure is a typed error and leaves the
    /// state untouched; a well-shaped, fully valid distribution of the
    /// coordinator's own curve is always accepted and moves the state to
    /// Verified.  Any other message kind is rejected.
    pub fn ingest(&mut self, message: &NetworkMessage) -> (r: Result<()>)
        requires
            old(self).wf(),
        ensures
            final(self).wf(),
            final(self).node_id == old(self).node_id,
            r is Err ==> *final(self) == *old(self),
            old(self).state != CoordinatorState::Initialised && old(self).state
                != CoordinatorState::Dealt ==> (r matches Err(e) && e is InvalidInput),
            (old(self).state == CoordinatorState::Initialised || old(self).state
                == CoordinatorState::Dealt) && !(message matches NetworkMessage::ShareDistribution { .. }) ==> (r matches Err(e) && e is InvalidInput),
            (old(self).state == CoordinatorState::Initialised || old(self).state
                == CoordinatorState::Dealt) && (message matches NetworkMessage::ShareDistribution { curve_type, .. } && *curve_type != old(self).curve()) ==> (r matches Err(e) && e is CurveError),
            r is Ok ==> final(self).state == CoordinatorState::Verified && final(self).laurent
                == old(self).laurent && final(self).pedersen == old(self).pedersen,
            r is Ok ==> (message matches NetworkMessage::ShareDistribution {
                commitments,
                proofs,
                curve_type,
                ..
            } ==> (distribution_shaped(*curve_type, commitments@, proofs@)
                ==> distribution_valid(*curve_type, commitments@, proofs@))),
            (old(self).state == CoordinatorState::Initialised || old(self).state
                == CoordinatorState::Dealt) && (message matches NetworkMessage::ShareDistribution {
                commitments,
                proofs,
                curve_type,
                ..
            } && *curve_type == old(self).curve() && distribution_shaped(*curve_type,
                commitments@, proofs@) && distribution_valid(*curve_type, commitments@,
                proofs@)) ==> r is Ok,
    {
        if !(matches!(self.state, CoordinatorState::Initialised) || matches!(
            self.state,
            CoordinatorState::Dealt,
        )) {
            return Err(Error::InvalidInput("protocol not ready to ingest".to_owned()));
        }
        let pedersen = match &self.pedersen {
            Some(pc) => pc,
            None => {
                return Err(Error::InvalidInput("protocol not initialized".to_owned()));
            },
        };
        match message {
            NetworkMessage::ShareDistribution { commitments, proofs, curve_type, .. } => {
                if *curve_type != pedersen.curve_type {
                    return Err(Error::CurveError("distribution from another curve".to_owned()));
                }
                check_commitments(pedersen, commitments.as_slice())?;
                check_proofs(pedersen, proofs.as_slice())?;
                self.state = CoordinatorState::Verified;
                Ok(())
            },
            _ => Err(Error::InvalidInput("unexpected message kind".to_owned())),
        }
    }

    /// Reconstruct the secret from a verified subset of shares.
    pub fn reconstruct(&mut self, shares: &[Share]) -> (r: Result<ReconstructionResult>)
        requires
            old(self).wf(),
        ensures
            final(self).wf(),
            final(self).node_id == old(self).node_id,
            old(self).state != CoordinatorState::Verified ==> (r matches Err(e)
                && e is InvalidInput && *final(self) == *old(self)),
            r is Err ==> *final(self) == *old(self),
            r is Ok ==> final(self).state == CoordinatorState::Reconstructed
                && final(self).laurent == old(self).laurent && final(self).pedersen == old(
                self,
            ).pedersen,
            r matches Ok(res) ==> ({
                let ls = old(self).laurent->Some_0;
                &&& res.valid
                &&& res.secret@.len() == 32
                &&& be_val(res.secret@) == crate::laurent::shares_sum(shares@,
                    ls.threshold as int) % group_order(ls.curve_type)
            }),
            old(self).state == CoordinatorState::Verified && shares@.len() < old(
                self,
            ).laurent->Some_0.threshold ==> (r matches Err(e) && e is InsufficientShares),
            old(self).state == CoordinatorState::Verified && shares@.len() >= old(
                self,
            ).laurent->Some_0.threshold && (forall|j: int|
                0 <= j < old(self).laurent->Some_0.threshold ==> (#[trigger] shares@[j]).value@.len() == 32) ==> r is Ok,
    {
        if !matches!(self.state, CoordinatorState::Verified) {
            return Err(Error::InvalidInput("protocol not ready to reconstruct".to_owned()));
        }
        let laurent = match &self.laurent {
            Some(ls) => ls,
            None => {
                return Err(Error::InvalidInput("protocol not initialized".to_owned()));
            },
        };
        let result = laurent.reconstruct_secret(shares)?;
        self.state = CoordinatorState::Reconstructed;
        Ok(result)
    }
}

} // verus!
