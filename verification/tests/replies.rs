use densezk_sdk::client::prover::network::{
    prove_endpoint, reply_outcome, ErrorResponse, ProveReply, ProveRequest, ProveResponse,
};
use densezk_sdk::client::prover::ClientWitness;
use densezk_sdk::{DenseZKError, PublicInputs, ZKProof};

#[test]
fn endpoint_appends_prove_path() {
    assert_eq!(prove_endpoint("http://localhost:8080"), "http://localhost:8080/prove");
    assert_eq!(prove_endpoint(""), "/prove");
}

#[test]
fn request_carries_edge_and_inputs() {
    let w = ClientWitness::from_commitment(456, 789, 1, "5".to_string());
    let p = PublicInputs {
        graph_root: "0xabc123".to_string(),
        threshold: 1,
    };
    let r = ProveRequest::new(w, p);
    assert_eq!(r.sender_id, 456);
    assert_eq!(r.receiver_id, 789);
    assert_eq!(r.weight, 1);
    assert_eq!(r.graph_root, "0xabc123");
    assert_eq!(r.threshold, 1);
}

#[test]
fn delivered_reply_becomes_proof() {
    let reply = ProveReply::Delivered(ProveResponse {
        proof_bytes: vec![7; 128],
        root_commitment: "0xabc123".to_string(),
    });
    assert_eq!(
        reply_outcome(reply),
        Ok(ZKProof {
            proof_bytes: vec![7; 128],
            root_commitment: "0xabc123".to_string()
        })
    );
}

#[test]
fn failures_become_network_errors() {
    assert_eq!(
        reply_outcome(ProveReply::Unsent("connection refused".to_string())),
        Err(DenseZKError::NetworkError("connection refused".to_string()))
    );
    assert_eq!(
        reply_outcome(ProveReply::Refused(Some(ErrorResponse {
            error: "bad witness".to_string()
        }))),
        Err(DenseZKError::NetworkError("bad witness".to_string()))
    );
    assert_eq!(
        reply_outcome(ProveReply::Refused(None)),
        Err(DenseZKError::NetworkError("Unknown error".to_string()))
    );
    assert_eq!(
        reply_outcome(ProveReply::Unreadable("expected value".to_string())),
        Err(DenseZKError::NetworkError("expected value".to_string()))
    );
}

#[test]
fn response_into_proof_keeps_fields() {
    let p = ProveResponse {
        proof_bytes: vec![1, 2],
        root_commitment: "r".to_string(),
    }
    .into_proof();
    assert_eq!(p.proof_bytes, vec![1, 2]);
    assert_eq!(p.root_commitment, "r");
}
