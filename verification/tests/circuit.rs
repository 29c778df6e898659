use densezk_sdk::client::prover::ClientWitness;
use densezk_sdk::prover::local::{
    bit_coefficients, check_satisfiable, circuit_witness, slack_bits, threshold_slack,
    verification_verdict, VerificationOutcome, ZKProof, SLACK_BITS,
};
use densezk_sdk::{DenseZKError, PublicInputs};

fn value_of(bits: &[u64]) -> u128 {
    bits.iter()
        .enumerate()
        .map(|(i, b)| (*b as u128) << i)
        .sum()
}

#[test]
fn slack_is_difference_or_zero() {
    assert_eq!(threshold_slack(30, 1), 29);
    assert_eq!(threshold_slack(5, 5), 0);
    assert_eq!(threshold_slack(1, 30), 0);
    assert_eq!(threshold_slack(u64::MAX, 0), u64::MAX);
}

#[test]
fn slack_bits_are_binary_representation() {
    let bits = slack_bits(0b1011);
    assert_eq!(bits.len(), SLACK_BITS);
    assert_eq!(&bits[..5], &[1, 1, 0, 1, 0]);
    assert!(bits[4..].iter().all(|b| *b == 0));
    let all = slack_bits(u64::MAX);
    assert!(all.iter().all(|b| *b == 1));
    assert_eq!(value_of(&slack_bits(123_456_789)), 123_456_789);
}

#[test]
fn witness_satisfies_sum_constraint_when_threshold_met() {
    let bits = circuit_witness(30, 1);
    assert_eq!(1 + value_of(&bits), 30);
    let equal = circuit_witness(7, 7);
    assert_eq!(7 + value_of(&equal), 7);
}

#[test]
fn witness_cannot_satisfy_when_threshold_missed() {
    let bits = circuit_witness(3, 10);
    assert!(bits.iter().all(|b| *b == 0));
    assert_ne!(10 + value_of(&bits), 3);
}

#[test]
fn coefficients_are_powers_of_two() {
    let c = bit_coefficients();
    assert_eq!(c.len(), 64);
    assert_eq!(c[0], 1);
    assert_eq!(c[1], 2);
    assert_eq!(c[10], 1024);
    assert_eq!(c[63], 1u64 << 63);
}

fn witness_with_weight(weight: u64) -> ClientWitness {
    ClientWitness::from_commitment(1, 2, weight, "9".to_string())
}

#[test]
fn satisfiable_only_when_weight_reaches_threshold() {
    let inputs = PublicInputs {
        graph_root: "0xabc123".to_string(),
        threshold: 5,
    };
    assert_eq!(check_satisfiable(&witness_with_weight(5), &inputs), Ok(()));
    assert_eq!(check_satisfiable(&witness_with_weight(6), &inputs), Ok(()));
    assert_eq!(
        check_satisfiable(&witness_with_weight(4), &inputs),
        Err(DenseZKError::ConstraintViolation)
    );
}

#[test]
fn only_accepted_proofs_pass_verification() {
    assert_eq!(verification_verdict(VerificationOutcome::Accepted), Ok(()));
    assert_eq!(
        verification_verdict(VerificationOutcome::Rejected),
        Err(DenseZKError::ConstraintViolation)
    );
    assert_eq!(
        verification_verdict(VerificationOutcome::Failed),
        Err(DenseZKError::ConstraintViolation)
    );
}

#[test]
fn proof_record_carries_graph_root() {
    let inputs = PublicInputs {
        graph_root: "0xdeadbeef".to_string(),
        threshold: 42,
    };
    let proof = ZKProof::for_inputs(vec![1, 2, 3], inputs);
    assert_eq!(proof.proof_bytes, vec![1, 2, 3]);
    assert_eq!(proof.root_commitment, "0xdeadbeef");
}
