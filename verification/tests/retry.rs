use densezk_sdk::client::prover::retry::{RetryAction, RetryLoop};
use densezk_sdk::{DenseZKError, ProverNetworkConfig, ZKProof};

fn config(retry_count: u32, backoff: u64) -> ProverNetworkConfig {
    ProverNetworkConfig {
        base_url: "http://localhost:8080".to_string(),
        max_concurrency: 1,
        timeout_secs: 1,
        retry_count,
        retry_backoff_ms: backoff,
    }
}

fn sample_proof(tag: u8) -> ZKProof {
    ZKProof {
        proof_bytes: vec![tag],
        root_commitment: "0xroot".to_string(),
    }
}

fn net(text: &str) -> DenseZKError {
    DenseZKError::NetworkError(text.to_string())
}

/// Drives the loop with the given replies; returns sends, waits and result.
fn drive(
    cfg: &ProverNetworkConfig,
    replies: Vec<Result<ZKProof, DenseZKError>>,
) -> (usize, Vec<u64>, Result<ZKProof, DenseZKError>) {
    let (mut state, mut action) = RetryLoop::start(cfg);
    let mut replies = replies.into_iter();
    let mut sends = 0;
    let mut waits = Vec::new();
    loop {
        match action {
            RetryAction::Send => {}
            RetryAction::WaitThenSend(ms) => waits.push(ms),
            RetryAction::Finish(r) => return (sends, waits, r),
        }
        sends += 1;
        action = state.on_reply(replies.next().expect("a reply for every send"));
    }
}

#[test]
fn first_success_ends_the_loop() {
    let (sends, waits, result) = drive(&config(3, 100), vec![Ok(sample_proof(1)), Ok(sample_proof(2))]);
    assert_eq!(sends, 1);
    assert!(waits.is_empty());
    assert_eq!(result, Ok(sample_proof(1)));
}

#[test]
fn success_after_failures_waits_linearly() {
    let (sends, waits, result) = drive(
        &config(3, 100),
        vec![Err(net("a")), Err(net("b")), Ok(sample_proof(3))],
    );
    assert_eq!(sends, 3);
    assert_eq!(waits, vec![100, 200]);
    assert_eq!(result, Ok(sample_proof(3)));
}

#[test]
fn exhausted_retries_return_last_error() {
    let (sends, waits, result) = drive(
        &config(3, 50),
        vec![Err(net("a")), Err(net("b")), Err(net("c")), Ok(sample_proof(4))],
    );
    assert_eq!(sends, 3);
    assert_eq!(waits, vec![50, 100]);
    assert_eq!(waits.iter().sum::<u64>(), 50 * 3 * 2 / 2);
    assert_eq!(result, Err(net("c")));
}

#[test]
fn zero_retries_sends_nothing() {
    let (sends, waits, result) = drive(&config(0, 100), vec![]);
    assert_eq!(sends, 0);
    assert!(waits.is_empty());
    assert_eq!(result, Err(DenseZKError::WitnessGenerationFailed));
}

#[test]
fn single_attempt_never_waits() {
    let (sends, waits, result) = drive(&config(1, 1000), vec![Err(net("down"))]);
    assert_eq!(sends, 1);
    assert!(waits.is_empty());
    assert_eq!(result, Err(net("down")));
}

#[test]
fn wait_overflow_is_detected_before_the_reply() {
    let (state, _) = RetryLoop::start(&config(3, u64::MAX));
    assert!(state.next_wait_fits());
    let mut second = state;
    second.attempt = 1;
    assert!(!second.next_wait_fits());
    let mut last = state;
    last.attempt = 2;
    assert!(last.next_wait_fits());
}
