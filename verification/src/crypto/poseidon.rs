use vstd::prelude::*;

use crate::error::DenseZKError;

verus! {

/// The circom-compatible Poseidon digest (BN254 scalar field, x^5 S-box,
/// width 4, zero domain tag) of three field elements given as `u64`s,
/// written in decimal.
pub uninterp spec fn poseidon_edge_digest(sender: u64, receiver: u64, weight: u64) -> Seq<char>;

/// Text made only of decimal digits, with no leading zero.
pub open spec fn is_decimal_text(s: Seq<char>) -> bool {
    &&& forall|i: int| 0 <= i < s.len() ==> '0' <= #[trigger] s[i] <= '9'
    &&& s.len() > 0 ==> s[0] != '0'
}

#[verifier::external_type_specification]
#[verifier::external_body]
pub struct ExPoseidonError(light_poseidon::PoseidonError);

/// Calls `light_poseidon::Poseidon::<Fr>::new_circom(3)` and then
/// `PoseidonHasher::hash` on the three inputs lifted into `Fr`, and renders
/// the digest with `Fr`'s `Display`. The sponge is built inside the call
/// because its type, generic over `ark_ff::PrimeField`, cannot appear in
/// verified code.
///
/// Claimed: the call succeeds (width 4 has circom parameters, and `hash`
/// fails only when the number of inputs differs from width - 1); the text is
/// the named digest; `Display` of an `Fr` prints its canonical integer in
/// decimal with leading zeros trimmed.
#[verifier::external_body]
fn poseidon_circom_hash3(sender: u64, receiver: u64, weight: u64) -> (r: Result<
    String,
    light_poseidon::PoseidonError,
>)
    ensures
        r is Ok,
        r matches Ok(s) ==> s@ == poseidon_edge_digest(sender, receiver, weight),
        r matches Ok(s) ==> is_decimal_text(s@),
{
    let mut sponge = light_poseidon::Poseidon::<ark_bn254::Fr>::new_circom(3)?;
    let inputs = [
        ark_bn254::Fr::from(sender),
        ark_bn254::Fr::from(receiver),
        ark_bn254::Fr::from(weight),
    ];
    light_poseidon::PoseidonHasher::hash(&mut sponge, &inputs).map(|digest| digest.to_string())
}

/// Poseidon commitments over graph edges.
pub struct PoseidonHasher {}

impl PoseidonHasher {
    pub fn new() -> (h: Self) {
        PoseidonHasher {  }
    }

    /// The commitment to an edge: the Poseidon digest of
    /// (sender, receiver, weight), in decimal.
    pub fn hash_edge(&self, sender: u64, receiver: u64, weight: u64) -> (r: Result<
        String,
        DenseZKError,
    >)
        ensures
            r is Ok,
            r matches Ok(c) ==> c@ == poseidon_edge_digest(sender, receiver, weight),
            r matches Ok(c) ==> is_decimal_text(c@),
    {
        match poseidon_circom_hash3(sender, receiver, weight) {
            Ok(digest) => Ok(digest),
            Err(_) => Err(DenseZKError::WitnessGenerationFailed),
        }
    }
}

} // verus!
