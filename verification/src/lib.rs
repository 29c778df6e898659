//! Client-side witness construction, circuit arithmetic and prover-network
//! protocol logic for the DenseZK graph proving SDK.

pub mod client;
pub mod crypto;
pub mod error;
pub mod prover;
pub mod rel1cs;
pub mod text;

pub use client::prover::network::{
    ProverNetworkClientAsync, ProverNetworkClientSync, ProverNetworkConfig,
};
pub use client::prover::DenseClient;
pub use error::DenseZKError;
pub use prover::local::ZKProof;
pub use rel1cs::types::{GraphEdge, PublicInputs};
