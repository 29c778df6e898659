use vstd::prelude::*;
use vstd::arithmetic::div_mod::{lemma_div_denominator, lemma_div_is_ordered, lemma_fundamental_div_mod};
use vstd::arithmetic::power2::{
    lemma2_to64, lemma_pow2_pos, lemma_pow2_strictly_increases, lemma_pow2_unfold, pow2,
};

use crate::client::prover::ClientWitness;
use crate::error::DenseZKError;
use crate::rel1cs::types::PublicInputs;

verus! {

/// A Groth16 proof over BN254 in compressed canonical form, and the graph
/// root it was produced against.
#[derive(Debug, Clone, PartialEq, Eq)]
pub struct ZKProof {
    pub proof_bytes: Vec<u8>,
    pub root_commitment: String,
}

impl ZKProof {
    /// The proof record for serialized proof bytes produced against
    /// `public_inputs`.
    pub fn for_inputs(proof_bytes: Vec<u8>, public_inputs: PublicInputs) -> (p: ZKProof)
        ensures
            p.proof_bytes@ == proof_bytes@,
            p.root_commitment@ == public_inputs.graph_root@,
    {
        ZKProof { proof_bytes, root_commitment: public_inputs.graph_root }
    }
}

/// Number of bits the range proof decomposes the slack into.
pub const SLACK_BITS: usize = 64;

/// Little-endian value of a bit vector: the sum of `bits[i] * 2^i`.
pub open spec fn bits_value(bits: Seq<u64>) -> int
    decreases bits.len(),
{
    if bits.len() == 0 {
        0
    } else {
        bits_value(bits.drop_last()) + bits.last() * pow2((bits.len() - 1) as nat)
    }
}

/// Every entry satisfies the booleanity constraint `b * b == b`.
pub open spec fn all_boolean(bits: Seq<u64>) -> bool {
    forall|i: int| 0 <= i < bits.len() ==> #[trigger] bits[i] * bits[i] == bits[i]
}

/// The constraints of the edge-weight circuit, for the private weight, the
/// public threshold and the private slack bits:
/// 64 booleanity constraints `b * b = b`, and `(threshold + sum b_i 2^i) * 1 = weight`.
/// Every quantity is below 2^65, far below the BN254 scalar modulus, so each
/// field equation holds exactly when its integer reading does (booleanity
/// in a prime field forces 0 or 1, as it does over the integers).
pub open spec fn constraints_hold(weight: u64, threshold: u64, bits: Seq<u64>) -> bool {
    &&& bits.len() == SLACK_BITS
    &&& all_boolean(bits)
    &&& threshold + bits_value(bits) == weight
}

/// The slack that the circuit decomposes: `weight - threshold`, or 0 when
/// the weight is below the threshold.
pub open spec fn slack(weight: u64, threshold: u64) -> u64 {
    if weight >= threshold {
        (weight - threshold) as u64
    } else {
        0
    }
}

/// The 64 little-endian binary digits of `value`.
pub open spec fn binary_digits(value: u64) -> Seq<u64> {
    Seq::new(SLACK_BITS as nat, |i: int| ((value as nat / pow2(i as nat)) % 2) as u64)
}

proof fn lemma_quotient_step(value: u64, k: nat)
    ensures
        value as nat / pow2(k + 1) == (value as nat / pow2(k)) / 2,
        value as nat / pow2(k) == 2 * (value as nat / pow2(k + 1)) + (value as nat / pow2(k)) % 2,
{
    lemma_pow2_unfold(k + 1);
    lemma_pow2_pos(k);
    lemma_div_denominator(value as int, pow2(k) as int, 2);
    assert(pow2(k) * 2 == pow2(k + 1));
    lemma_fundamental_div_mod((value as nat / pow2(k)) as int, 2);
}

proof fn lemma_bits_value_nonneg(bits: Seq<u64>)
    ensures
        bits_value(bits) >= 0,
    decreases bits.len(),
{
    if bits.len() > 0 {
        lemma_bits_value_nonneg(bits.drop_last());
        lemma_pow2_pos((bits.len() - 1) as nat);
        let p = pow2((bits.len() - 1) as nat);
        let b = bits.last();
        assert(b * p >= 0) by (nonlinear_arith)
            requires
                b >= 0,
                p > 0,
        ;
    }
}

proof fn lemma_binary_digits_prefix(value: u64, k: nat)
    requires
        k <= SLACK_BITS,
    ensures
        bits_value(binary_digits(value).take(k as int)) + (value as nat / pow2(k)) * pow2(k)
            == value,
    decreases k,
{
    let digits = binary_digits(value);
    if k == 0 {
        lemma2_to64();
        assert(digits.take(0) =~= Seq::<u64>::empty());
    } else {
        let j = (k - 1) as nat;
        lemma_binary_digits_prefix(value, j);
        let prefix = digits.take(k as int);
        assert(prefix.drop_last() =~= digits.take(j as int));
        assert(prefix.last() == digits[j as int]);
        lemma_quotient_step(value, j);
        lemma_pow2_unfold(k);
        let q = value as nat / pow2(k);
        let q_prev = value as nat / pow2(j);
        let d = q_prev % 2;
        let p = pow2(j);
        assert(q_prev * p == q * pow2(k) + d * p) by (nonlinear_arith)
            requires
                q_prev == 2 * q + d,
                pow2(k) == 2 * p,
        ;
    }
}

/// The binary digits of a value are bits and add up to the value.
pub proof fn lemma_binary_digits(value: u64)
    ensures
        binary_digits(value).len() == SLACK_BITS,
        all_boolean(binary_digits(value)),
        bits_value(binary_digits(value)) == value,
{
    let digits = binary_digits(value);
    assert forall|i: int| 0 <= i < digits.len() implies #[trigger] digits[i] * digits[i]
        == digits[i] by {
        let b = digits[i];
        assert(b < 2);
        assert(b * b == b) by (nonlinear_arith)
            requires
                b < 2,
        ;
    }
    lemma_binary_digits_prefix(value, SLACK_BITS as nat);
    assert(digits.take(SLACK_BITS as int) =~= digits);
    lemma2_to64();
    lemma_bits_value_nonneg(digits);
    let q = value as nat / pow2(64);
    assert(q == 0) by {
        lemma_div_is_ordered(value as int, 0x10000000000000000 - 1, 0x10000000000000000);
    }
}

/// The edge-weight circuit has a satisfying assignment exactly when the
/// weight reaches the threshold, and the binary digits of the slack are one.
pub proof fn lemma_circuit_satisfiable_iff_threshold_met(weight: u64, threshold: u64)
    ensures
        (exists|bits: Seq<u64>| constraints_hold(weight, threshold, bits)) <==> weight
            >= threshold,
        constraints_hold(weight, threshold, binary_digits(slack(weight, threshold))) <==> weight
            >= threshold,
{
    lemma_binary_digits(slack(weight, threshold));
    if weight >= threshold {
        assert(constraints_hold(weight, threshold, binary_digits(slack(weight, threshold))));
    } else {
        assert forall|w: Seq<u64>| !constraints_hold(weight, threshold, w) by {
            lemma_bits_value_nonneg(w);
        }
    }
}

/// The slack of the range proof: `weight - threshold` when the weight
/// reaches the threshold, 0 otherwise.
pub fn threshold_slack(weight: u64, threshold: u64) -> (d: u64)
    ensures
        d == slack(weight, threshold),
{
    if weight >= threshold {
        weight - threshold
    } else {
        0
    }
}

/// The 64 little-endian binary digits of `value`.
pub fn slack_bits(value: u64) -> (bits: Vec<u64>)
    ensures
        bits@ == binary_digits(value),
        all_boolean(bits@),
        bits_value(bits@) == value,
{
    let mut bits: Vec<u64> = Vec::new();
    let mut rest: u64 = value;
    let mut i: usize = 0;
    proof {
        lemma2_to64();
        assert(binary_digits(value).take(0) =~= bits@);
    }
    while i < SLACK_BITS
        invariant
            i <= SLACK_BITS,
            bits@ == binary_digits(value).take(i as int),
            rest == value as nat / pow2(i as nat),
        decreases SLACK_BITS - i,
    {
        proof {
            lemma_quotient_step(value, i as nat);
            lemma_pow2_pos(i as nat);
        }
        let b: u64 = rest % 2;
        bits.push(b);
        rest = rest / 2;
        i = i + 1;
        assert(bits@ =~= binary_digits(value).take(i as int));
    }
    proof {
        assert(bits@ =~= binary_digits(value));
        lemma_binary_digits(value);
    }
    bits
}

/// The private slack bits that the prover assigns for an edge weight and a
/// threshold. They satisfy the circuit exactly when the weight reaches the
/// threshold.
pub fn circuit_witness(weight: u64, threshold: u64) -> (bits: Vec<u64>)
    ensures
        bits@ == binary_digits(slack(weight, threshold)),
        all_boolean(bits@),
        bits_value(bits@) == slack(weight, threshold),
        constraints_hold(weight, threshold, bits@) <==> weight >= threshold,
{
    let bits = slack_bits(threshold_slack(weight, threshold));
    proof {
        lemma_circuit_satisfiable_iff_threshold_met(weight, threshold);
    }
    bits
}

/// The coefficients `2^i` of the slack bits in the sum constraint.
pub fn bit_coefficients() -> (c: Vec<u64>)
    ensures
        c@.len() == SLACK_BITS,
        forall|i: int| 0 <= i < SLACK_BITS ==> #[trigger] c@[i] == pow2(i as nat),
{
    let mut c: Vec<u64> = Vec::new();
    let mut coefficient: u64 = 1;
    let mut i: usize = 0;
    proof {
        lemma2_to64();
    }
    while i < SLACK_BITS
        invariant
            i <= SLACK_BITS,
            c@.len() == i,
            forall|j: int| 0 <= j < i ==> #[trigger] c@[j] == pow2(j as nat),
            i < SLACK_BITS ==> coefficient == pow2(i as nat),
            pow2(64) == 0x10000000000000000,
        decreases SLACK_BITS - i,
    {
        c.push(coefficient);
        if i + 1 < SLACK_BITS {
            proof {
                lemma_pow2_unfold((i + 1) as nat);
                lemma_pow2_strictly_increases((i + 1) as nat, 64);
            }
            coefficient = coefficient * 2;
        }
        i = i + 1;
    }
    c
}

/// Fails with `ConstraintViolation` when the edge weight is below the
/// threshold: no assignment satisfies the circuit then, so no proof of it
/// can verify.
pub fn check_satisfiable(witness: &ClientWitness, public_inputs: &PublicInputs) -> (r: Result<
    (),
    DenseZKError,
>)
    ensures
        r is Ok <==> witness.edge.weight >= public_inputs.threshold,
        r matches Err(e) ==> e == DenseZKError::ConstraintViolation,
{
    if witness.edge.weight >= public_inputs.threshold {
        Ok(())
    } else {
        Err(DenseZKError::ConstraintViolation)
    }
}

/// What the Groth16 verifier said of a freshly produced proof.
#[derive(Debug, Clone, Copy, PartialEq, Eq)]
pub enum VerificationOutcome {
    Accepted,
    Rejected,
    Failed,
}

/// A proof is returned only when the verifier accepted it; a rejection or a
/// verifier error is a constraint violation.
pub fn verification_verdict(outcome: VerificationOutcome) -> (r: Result<(), DenseZKError>)
    ensures
        r is Ok <==> outcome == VerificationOutcome::Accepted,
        r matches Err(e) ==> e == DenseZKError::ConstraintViolation,
{
    match outcome {
        VerificationOutcome::Accepted => Ok(()),
        _ => Err(DenseZKError::ConstraintViolation),
    }
}

} // verus!
