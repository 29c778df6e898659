use vstd::prelude::*;

verus! {

/// A directed, weighted edge of the social graph.
#[derive(Debug, Clone, Copy, PartialEq, Eq)]
pub struct GraphEdge {
    pub sender_id: u64,
    pub receiver_id: u64,
    pub weight: u64,
}

/// The inputs that prover and verifier share.
#[derive(Debug, Clone, PartialEq, Eq)]
pub struct PublicInputs {
    pub graph_root: String,
    pub threshold: u64,
}

} // verus!
