use vstd::prelude::*;

use crate::crypto::poseidon::{is_decimal_text, poseidon_edge_digest, PoseidonHasher};
use crate::error::DenseZKError;
use crate::rel1cs::types::GraphEdge;

pub mod batch;
pub mod network;
pub mod retry;

verus! {

/// The private witness computed on the device: the edge itself and the
/// Poseidon commitment to it.
#[derive(Debug, Clone, PartialEq, Eq)]
pub struct ClientWitness {
    pub edge: GraphEdge,
    pub commitment: String,
}

impl ClientWitness {
    /// The witness for the edge (sender, receiver, weight) with the given
    /// commitment.
    pub fn from_commitment(sender: u64, receiver: u64, weight: u64, commitment: String) -> (w:
        ClientWitness)
        ensures
            w.edge == (GraphEdge { sender_id: sender, receiver_id: receiver, weight }),
            w.commitment == commitment,
    {
        ClientWitness {
            edge: GraphEdge { sender_id: sender, receiver_id: receiver, weight },
            commitment,
        }
    }
}

/// The on-device client that turns graph edges into witnesses.
pub struct DenseClient {
    hasher: PoseidonHasher,
}

impl DenseClient {
    pub fn new() -> (c: Self) {
        DenseClient { hasher: PoseidonHasher::new() }
    }

    /// Builds the witness for one edge. It always succeeds: the edge is
    /// echoed and the commitment is the Poseidon digest of its three fields.
    pub fn create_witness(&mut self, sender: u64, receiver: u64, weight: u64) -> (r: Result<
        ClientWitness,
        DenseZKError,
    >)
        ensures
            r is Ok,
            *final(self) == *old(self),
            r matches Ok(w) ==> w.edge == (GraphEdge {
                sender_id: sender,
                receiver_id: receiver,
                weight,
            }),
            r matches Ok(w) ==> w.commitment@ == poseidon_edge_digest(sender, receiver, weight),
            r matches Ok(w) ==> is_decimal_text(w.commitment@),
    {
        let commitment = match self.hasher.hash_edge(sender, receiver, weight) {
            Ok(c) => c,
            Err(e) => {
                return Err(e);
            },
        };
        Ok(ClientWitness::from_commitment(sender, receiver, weight, commitment))
    }
}

} // verus!
