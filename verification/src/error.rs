use vstd::prelude::*;

verus! {

/// Every way in which an SDK operation can fail.
#[derive(Debug, Clone, PartialEq, Eq)]
pub enum DenseZKError {
    /// The circuit-specific setup could not produce keys.
    SetupFailed,
    /// A witness or proof could not be produced.
    WitnessGenerationFailed,
    /// The produced proof does not verify against the public inputs.
    ConstraintViolation,
    /// A request to the prover network failed; the text says why.
    NetworkError(String),
    /// Some requests of a batch failed: the summary and the batch size.
    PartialFailure(String, usize),
}

impl DenseZKError {
    /// The human-readable text of an error.
    pub open spec fn text(&self) -> Seq<char> {
        match self {
            DenseZKError::SetupFailed => "Groth16 setup failed"@,
            DenseZKError::WitnessGenerationFailed => "Witness generation failed"@,
            DenseZKError::ConstraintViolation => "Proof verification failed: constraint violation"@,
            DenseZKError::NetworkError(m) => "Network error: "@ + m@,
            DenseZKError::PartialFailure(m, _) => "Batch partially failed: "@ + m@,
        }
    }

    /// Renders the error as text (what `Display` shows).
    pub fn message(&self) -> (r: String)
        ensures
            r@ == self.text(),
    {
        match self {
            DenseZKError::SetupFailed => String::from_str("Groth16 setup failed"),
            DenseZKError::WitnessGenerationFailed => String::from_str("Witness generation failed"),
            DenseZKError::ConstraintViolation => String::from_str(
                "Proof verification failed: constraint violation",
            ),
            DenseZKError::NetworkError(m) => {
                let mut r = String::from_str("Network error: ");
                r.append(m.as_str());
                r
            },
            DenseZKError::PartialFailure(m, _) => {
                let mut r = String::from_str("Batch partially failed: ");
                r.append(m.as_str());
                r
            },
        }
    }
}

} // verus!
