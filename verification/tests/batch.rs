use densezk_sdk::client::prover::batch::{collect_batch, plan_batch, RequestOutcome};
use densezk_sdk::client::prover::ClientWitness;
use densezk_sdk::{DenseZKError, PublicInputs, ZKProof};

fn witness(sender: u64) -> ClientWitness {
    ClientWitness::from_commitment(sender, 789, 1, "1".to_string())
}

fn inputs(root: &str) -> PublicInputs {
    PublicInputs {
        graph_root: root.to_string(),
        threshold: 1,
    }
}

fn sample_proof(tag: u8) -> ZKProof {
    ZKProof {
        proof_bytes: vec![tag],
        root_commitment: "0xabc123".to_string(),
    }
}

#[test]
fn plan_pairs_items_in_order() {
    let pairs = plan_batch(vec![witness(1), witness(2)], vec![inputs("a"), inputs("b")]).unwrap();
    assert_eq!(pairs.len(), 2);
    assert_eq!(pairs[0].0.edge.sender_id, 1);
    assert_eq!(pairs[0].1.graph_root, "a");
    assert_eq!(pairs[1].0.edge.sender_id, 2);
    assert_eq!(pairs[1].1.graph_root, "b");
}

#[test]
fn plan_refuses_mismatched_lengths() {
    let r = plan_batch(vec![witness(1), witness(2)], vec![inputs("a")]);
    assert_eq!(
        r.unwrap_err(),
        DenseZKError::NetworkError(
            "witnesses and public_inputs must have equal length".to_string()
        )
    );
}

#[test]
fn plan_of_empty_batch_is_empty() {
    assert!(plan_batch(vec![], vec![]).unwrap().is_empty());
}

#[test]
fn all_successes_give_all_proofs() {
    let r = collect_batch(
        vec![RequestOutcome::Proved(sample_proof(1)), RequestOutcome::Proved(sample_proof(2))],
        2,
    );
    assert_eq!(r, Ok(vec![sample_proof(1), sample_proof(2)]));
}

#[test]
fn all_failures_summarised() {
    let r = collect_batch(
        vec![
            RequestOutcome::Failed(DenseZKError::NetworkError("refused".to_string())),
            RequestOutcome::Panicked,
        ],
        2,
    );
    assert_eq!(
        r,
        Err(DenseZKError::PartialFailure(
            "2 failures: Network error: refused; Task panicked".to_string(),
            2
        ))
    );
}

#[test]
fn partial_failure_counts_successes() {
    let r = collect_batch(
        vec![
            RequestOutcome::Proved(sample_proof(1)),
            RequestOutcome::from_result(Err(DenseZKError::ConstraintViolation)),
            RequestOutcome::from_result(Ok(sample_proof(3))),
        ],
        3,
    );
    assert_eq!(
        r,
        Err(DenseZKError::PartialFailure(
            "1 failures: Proof verification failed: constraint violation. 2 succeeded"
                .to_string(),
            3
        ))
    );
}

#[test]
fn many_failures_use_multi_digit_count() {
    let outcomes = (0..12).map(|_| RequestOutcome::Panicked).collect();
    match collect_batch(outcomes, 12) {
        Err(DenseZKError::PartialFailure(m, 12)) => assert!(m.starts_with("12 failures: ")),
        other => panic!("unexpected {:?}", other),
    }
}

use densezk_sdk::client::prover::batch::{BatchWindow, WindowStep};

/// Drives a window to its end; returns the most requests ever running and the steps taken.
fn run_window(total: usize, max_concurrency: u32) -> (usize, Vec<WindowStep>) {
    let mut w = BatchWindow::new(total, max_concurrency);
    let mut most = 0;
    let mut steps = Vec::new();
    loop {
        let step = w.next_step();
        steps.push(step);
        match step {
            WindowStep::Start => w.start(),
            WindowStep::Collect => w.collect(),
            WindowStep::Done => break,
        }
        most = most.max(w.started - w.collected);
    }
    (most, steps)
}

#[test]
fn window_never_exceeds_max_concurrency() {
    let (most, steps) = run_window(8, 2);
    assert_eq!(most, 2);
    assert_eq!(steps.len(), 17);
    assert_eq!(&steps[..4], &[WindowStep::Start, WindowStep::Start, WindowStep::Collect, WindowStep::Start]);
    let (most_wide, _) = run_window(3, 8);
    assert_eq!(most_wide, 3);
}

#[test]
fn window_with_zero_concurrency_runs_one_at_a_time() {
    let (most, steps) = run_window(3, 0);
    assert_eq!(most, 1);
    assert_eq!(steps.len(), 7);
}

#[test]
fn empty_window_is_done_at_once() {
    let (most, steps) = run_window(0, 4);
    assert_eq!(most, 0);
    assert_eq!(steps, vec![WindowStep::Done]);
}
