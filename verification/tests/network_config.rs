use densezk_sdk::client::prover::network::ProveRequest;
use densezk_sdk::{ProverNetworkClientSync, ProverNetworkConfig};

#[test]
fn test_prover_network_config_defaults() {
    let config = ProverNetworkConfig::default();
    assert_eq!(config.base_url, "http://localhost:8080");
    assert_eq!(config.max_concurrency, 4);
    assert_eq!(config.timeout_secs, 30);
    assert_eq!(config.retry_count, 3);
    assert_eq!(config.retry_backoff_ms, 100);
}

#[test]
fn test_prover_network_config_custom() {
    let config = ProverNetworkConfig {
        base_url: "http://192.168.1.100:9090".to_string(),
        max_concurrency: 8,
        timeout_secs: 60,
        retry_count: 5,
        retry_backoff_ms: 200,
    };
    assert_eq!(config.base_url, "http://192.168.1.100:9090");
    assert_eq!(config.max_concurrency, 8);
    assert_eq!(config.timeout_secs, 60);
    assert_eq!(config.retry_count, 5);
    assert_eq!(config.retry_backoff_ms, 200);
}

#[test]
fn test_prove_request_clone() {
    let request = ProveRequest {
        sender_id: 456,
        receiver_id: 789,
        weight: 1,
        graph_root: "0xabc123".to_string(),
        threshold: 1,
    };
    let cloned = request.clone();
    assert_eq!(request.sender_id, cloned.sender_id);
    assert_eq!(request.receiver_id, cloned.receiver_id);
}

#[test]
fn test_sync_prover_client_creation() {
    let client = ProverNetworkClientSync::new(ProverNetworkConfig::default());
    assert!(client.is_ok());
}

#[test]
fn prove_request_clone_keeps_every_field() {
    let request = ProveRequest {
        sender_id: 1,
        receiver_id: 2,
        weight: 3,
        graph_root: "0xroot".to_string(),
        threshold: 4,
    };
    let cloned = request.clone();
    assert_eq!(cloned.weight, 3);
    assert_eq!(cloned.graph_root, "0xroot");
    assert_eq!(cloned.threshold, 4);
}

#[test]
fn sync_client_keeps_its_configuration() {
    let config = ProverNetworkConfig {
        base_url: "http://prover:1".to_string(),
        max_concurrency: 2,
        timeout_secs: 5,
        retry_count: 7,
        retry_backoff_ms: 9,
    };
    let client = ProverNetworkClientSync::new(config).unwrap();
    assert_eq!(client.config().base_url, "http://prover:1");
    assert_eq!(client.config().retry_count, 7);
    let copy = client.clone();
    assert_eq!(copy.config().retry_backoff_ms, 9);
    assert_eq!(copy.config().max_concurrency, 2);
}

#[test]
fn sync_client_with_defaults_uses_default_configuration() {
    let client = ProverNetworkClientSync::with_defaults().unwrap();
    assert_eq!(client.config().base_url, "http://localhost:8080");
    assert_eq!(client.config().timeout_secs, 30);
    assert_eq!(client.config().retry_count, 3);
}

#[test]
fn test_async_prover_client_creation() {
    let client = densezk_sdk::ProverNetworkClientAsync::new(ProverNetworkConfig::default());
    assert!(client.is_ok());
}

#[test]
fn async_client_keeps_its_configuration() {
    let client = densezk_sdk::ProverNetworkClientAsync::with_defaults().unwrap();
    assert_eq!(client.config().base_url, "http://localhost:8080");
    assert_eq!(client.config().max_concurrency, 4);
    let copy = client.clone();
    assert_eq!(copy.config().retry_backoff_ms, 100);
    assert_eq!(copy.permits().available_permits(), 4);
}
