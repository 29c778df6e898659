# densezk_sdk

Client-side logic of the DenseZK graph proving SDK, verified with Verus.

- `src/crypto/poseidon.rs` — Poseidon (circom, BN254) commitments to graph edges, through `light-poseidon`.
- `src/client/prover.rs` — witness construction (`DenseClient`, `ClientWitness`).
- `src/prover/local.rs` — the edge-weight range circuit: slack bits, coefficients, the proof that the
  circuit is satisfiable exactly when the weight reaches the threshold, and the verdict on a produced proof.
- `src/client/prover/network.rs` — prover-network configuration, requests, replies, and the sync/async clients.
- `src/client/prover/retry.rs` — the retry loop as a state machine, with its law over any sequence of replies.
- `src/client/prover/batch.rs` — batch planning, the dispatch window that keeps at most
  `max_concurrency` requests of a batch running, and the batch summary.
- `app/` — the command-line program: Groth16 setup and proving with arkworks, HTTP transport, threads,
  tokio tasks, sleeping, JSON. `LocalProver`, `execute_dense_zk_flow` and the clients' `prove` /
  `prove_batch` live there (`app/local_prover.rs`, `app/network.rs`).
