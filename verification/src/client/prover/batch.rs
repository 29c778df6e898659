use vstd::prelude::*;

use crate::client::prover::ClientWitness;
use crate::error::DenseZKError;
use crate::prover::local::ZKProof;
use crate::rel1cs::types::PublicInputs;
use crate::text::{decimal, join, join_strings, push_decimal};

verus! {

/// The text of the error for a batch whose two lists differ in length.
pub open spec fn length_mismatch_text() -> Seq<char> {
    "witnesses and public_inputs must have equal length"@
}

/// Pairs each witness with the public inputs at the same position: one
/// proving request each. Lists of different lengths are refused with a
/// `NetworkError`.
pub fn plan_batch(witnesses: Vec<ClientWitness>, public_inputs: Vec<PublicInputs>) -> (r: Result<
    Vec<(ClientWitness, PublicInputs)>,
    DenseZKError,
>)
    ensures
        r is Ok <==> witnesses@.len() == public_inputs@.len(),
        r matches Err(e) ==> e matches DenseZKError::NetworkError(m) && m@
            == length_mismatch_text(),
        r matches Ok(pairs) ==> pairs@.len() == witnesses@.len() && forall|i: int|
            0 <= i < pairs@.len() ==> #[trigger] pairs@[i] == (witnesses@[i], public_inputs@[i]),
{
    if witnesses.len() != public_inputs.len() {
        return Err(
            DenseZKError::NetworkError(
                String::from_str("witnesses and public_inputs must have equal length"),
            ),
        );
    }
    let ghost ws = witnesses@;
    let ghost ps = public_inputs@;
    let mut witnesses = witnesses;
    let mut public_inputs = public_inputs;
    let mut pairs: Vec<(ClientWitness, PublicInputs)> = Vec::new();
    while witnesses.len() > 0
        invariant
            witnesses@.len() == public_inputs@.len(),
            pairs@.len() + witnesses@.len() == ws.len(),
            ws.len() == ps.len(),
            witnesses@ == ws.skip(pairs@.len() as int),
            public_inputs@ == ps.skip(pairs@.len() as int),
            forall|i: int| 0 <= i < pairs@.len() ==> #[trigger] pairs@[i] == (ws[i], ps[i]),
        decreases witnesses@.len(),
    {
        let ghost k: int = pairs@.len() as int;
        let w = witnesses.remove(0);
        let p = public_inputs.remove(0);
        assert(ws.skip(k).drop_first() =~= ws.skip(k + 1 as int));
        assert(ps.skip(k).drop_first() =~= ps.skip(k + 1 as int));
        pairs.push((w, p));
    }
    Ok(pairs)
}

/// How one request of a batch ended.
#[derive(Debug)]
pub enum RequestOutcome {
    /// The request produced a proof.
    Proved(ZKProof),
    /// The request failed with this error.
    Failed(DenseZKError),
    /// The task that ran the request panicked.
    Panicked,
}

impl RequestOutcome {
    /// The text that a failed request contributes to a batch summary.
    pub open spec fn failure_text(self) -> Seq<char> {
        match self {
            RequestOutcome::Failed(e) => e.text(),
            _ => "Task panicked"@,
        }
    }

    /// The outcome of a request that returned `r`.
    pub fn from_result(r: Result<ZKProof, DenseZKError>) -> (o: RequestOutcome)
        ensures
            r matches Ok(p) ==> o == RequestOutcome::Proved(p),
            r matches Err(e) ==> o == RequestOutcome::Failed(e),
    {
        match r {
            Ok(p) => RequestOutcome::Proved(p),
            Err(e) => RequestOutcome::Failed(e),
        }
    }
}

/// What a batch does next.
#[derive(Debug, Clone, Copy, PartialEq, Eq)]
pub enum WindowStep {
    /// Start the next request, in input order.
    Start,
    /// Wait for the oldest running request and collect its outcome.
    Collect,
    /// Every request was started and collected.
    Done,
}

/// The dispatch window of a batch of `total` requests: requests start in
/// input order, their outcomes are collected in input order, and at most
/// `limit` of them run at a time.
#[derive(Debug, Clone, Copy)]
pub struct BatchWindow {
    pub total: usize,
    pub started: usize,
    pub collected: usize,
    pub limit: usize,
}

/// The number of requests a batch may run at a time for a configured
/// `max_concurrency`: that many, and one when it is zero, so that the batch
/// still makes progress.
pub open spec fn window_limit(max_concurrency: u32) -> nat {
    if max_concurrency == 0 {
        1
    } else {
        max_concurrency as nat
    }
}

impl BatchWindow {
    /// Collected requests were started, started requests exist, and no more
    /// than `limit` (at least one) run at a time.
    pub open spec fn wf(&self) -> bool {
        &&& self.collected <= self.started <= self.total
        &&& self.started - self.collected <= self.limit
        &&& self.limit >= 1
    }

    /// Requests started and not yet collected.
    pub open spec fn in_flight(&self) -> int {
        self.started - self.collected
    }

    /// The step the window takes: start while a request remains and the
    /// window has room, otherwise collect the oldest running request,
    /// otherwise stop.
    pub open spec fn step(&self) -> WindowStep {
        if self.started < self.total && self.in_flight() < self.limit {
            WindowStep::Start
        } else if self.collected < self.started {
            WindowStep::Collect
        } else {
            WindowStep::Done
        }
    }

    /// The window of a batch of `total` requests, nothing started.
    pub fn new(total: usize, max_concurrency: u32) -> (w: BatchWindow)
        ensures
            w == (BatchWindow {
                total,
                started: 0,
                collected: 0,
                limit: window_limit(max_concurrency) as usize,
            }),
            w.wf(),
    {
        let limit: usize = if max_concurrency == 0 {
            1
        } else {
            max_concurrency as usize
        };
        BatchWindow { total, started: 0, collected: 0, limit }
    }

    /// What to do next.
    pub fn next_step(&self) -> (step: WindowStep)
        requires
            self.wf(),
        ensures
            step == self.step(),
    {
        if self.started < self.total && self.started - self.collected < self.limit {
            WindowStep::Start
        } else if self.collected < self.started {
            WindowStep::Collect
        } else {
            WindowStep::Done
        }
    }

    /// Records that the next request was started.
    pub fn start(&mut self)
        requires
            old(self).wf(),
            old(self).step() == WindowStep::Start,
        ensures
            *final(self) == (BatchWindow { started: (old(self).started + 1) as usize, ..*old(self) }),
            final(self).wf(),
    {
        self.started = self.started + 1;
    }

    /// Records that the oldest running request was collected.
    pub fn collect(&mut self)
        requires
            old(self).wf(),
            old(self).step() == WindowStep::Collect,
        ensures
            *final(self) == (BatchWindow {
                collected: (old(self).collected + 1) as usize,
                ..*old(self)
            }),
            final(self).wf(),
    {
        self.collected = self.collected + 1;
    }
}

/// A batch window never runs more than `max_concurrency` requests at a
/// time (one when that is zero); it stops exactly when every request was
/// collected; and each step brings it closer to that end.
pub proof fn lemma_window_bounded_and_live(w: BatchWindow)
    requires
        w.wf(),
    ensures
        w.in_flight() <= w.limit,
        w.step() == WindowStep::Done <==> w.collected == w.total,
        w.step() == WindowStep::Start ==> w.in_flight() + 1 <= w.limit,
        w.step() != WindowStep::Done ==> (w.total - w.started) + (w.total - w.collected) > 0,
{
}

/// The proofs among the results, in order.
pub open spec fn successes(results: Seq<RequestOutcome>) -> Seq<ZKProof>
    decreases results.len(),
{
    if results.len() == 0 {
        Seq::empty()
    } else {
        let earlier = successes(results.drop_last());
        match results.last() {
            RequestOutcome::Proved(p) => earlier.push(p),
            _ => earlier,
        }
    }
}

/// The texts of the failures among the results, in order.
pub open spec fn failure_texts(results: Seq<RequestOutcome>) -> Seq<Seq<char>>
    decreases results.len(),
{
    if results.len() == 0 {
        Seq::empty()
    } else {
        let earlier = failure_texts(results.drop_last());
        match results.last() {
            RequestOutcome::Proved(_) => earlier,
            other => earlier.push(other.failure_text()),
        }
    }
}

/// The summary of a batch with failures: how many failed and why, and, when
/// some succeeded, how many.
pub open spec fn batch_summary(results: Seq<RequestOutcome>) -> Seq<char> {
    let failures = failure_texts(results);
    let proofs = successes(results);
    let head = decimal(failures.len()) + " failures: "@ + join(failures, "; "@);
    if proofs.len() == 0 {
        head
    } else {
        head + ". "@ + decimal(proofs.len()) + " succeeded"@
    }
}

proof fn lemma_counts(results: Seq<RequestOutcome>)
    ensures
        successes(results).len() + failure_texts(results).len() == results.len(),
        failure_texts(results).len() == 0 <==> forall|i: int|
            0 <= i < results.len() ==> #[trigger] results[i] is Proved,
    decreases results.len(),
{
    if results.len() > 0 {
        let rest = results.drop_last();
        lemma_counts(rest);
        if failure_texts(results).len() == 0 {
            assert forall|i: int| 0 <= i < results.len() implies #[trigger] results[i] is Proved by {
                if i < results.len() - 1 {
                    assert(results[i] == rest[i]);
                }
            }
        }
    }
}

/// When every request of a batch produced a proof, the batch yields one
/// proof per request, in the order of the results.
pub proof fn lemma_all_proved(results: Seq<RequestOutcome>)
    requires
        forall|i: int| 0 <= i < results.len() ==> #[trigger] results[i] is Proved,
    ensures
        successes(results).len() == results.len(),
        forall|i: int|
            0 <= i < results.len() ==> results[i] == RequestOutcome::Proved(
                #[trigger] successes(results)[i],
            ),
    decreases results.len(),
{
    if results.len() > 0 {
        let rest = results.drop_last();
        assert forall|i: int| 0 <= i < rest.len() implies #[trigger] rest[i] is Proved by {
            assert(rest[i] == results[i]);
        }
        lemma_all_proved(rest);
        assert(results.last() is Proved);
        assert forall|i: int| 0 <= i < results.len() implies results[i] == RequestOutcome::Proved(
            #[trigger] successes(results)[i],
        ) by {
            if i < results.len() - 1 {
                assert(results[i] == rest[i]);
            }
        }
    }
}

/// The outcome of a batch from the results of its requests, `count` being
/// the batch size: all the proofs when every request succeeded, otherwise a
/// `PartialFailure` with the summary and the batch size.
pub fn collect_batch(results: Vec<RequestOutcome>, count: usize) -> (r: Result<
    Vec<ZKProof>,
    DenseZKError,
>)
    ensures
        r is Ok <==> forall|i: int| 0 <= i < results@.len() ==> #[trigger] results@[i] is Proved,
        r matches Ok(proofs) ==> proofs@ == successes(results@),
        r matches Err(e) ==> e matches DenseZKError::PartialFailure(m, c) && m@ == batch_summary(
            results@,
        ) && c == count,
{
    let ghost all = results@;
    let n = results.len();
    assert(all.len() == n);
    let mut results = results;
    let mut proofs: Vec<ZKProof> = Vec::new();
    let mut failures: Vec<String> = Vec::new();
    let mut k: usize = 0;
    while results.len() > 0
        invariant
            k + results@.len() == all.len(),
            all.len() <= usize::MAX,
            results@ == all.skip(k as int),
            proofs@ == successes(all.take(k as int)),
            failures@.map_values(|s: String| s@) == failure_texts(all.take(k as int)),
        decreases results@.len(),
    {
        let ghost before = failures@;
        let r = results.remove(0);
        assert(all.skip(k as int).drop_first() =~= all.skip(k + 1));
        assert(all.take(k + 1).drop_last() =~= all.take(k as int));
        let ghost outcome = r;
        match r {
            RequestOutcome::Proved(p) => {
                proofs.push(p);
            },
            RequestOutcome::Failed(e) => {
                let text = e.message();
                failures.push(text);
                assert(failures@.map_values(|s: String| s@) =~= before.map_values(
                    |s: String| s@,
                ).push(outcome.failure_text()));
            },
            RequestOutcome::Panicked => {
                let text = String::from_str("Task panicked");
                failures.push(text);
                assert(failures@.map_values(|s: String| s@) =~= before.map_values(
                    |s: String| s@,
                ).push(outcome.failure_text()));
            },
        }
        k = k + 1;
    }
    assert(all.take(k as int) =~= all);
    proof {
        lemma_counts(all);
    }
    if failures.len() == 0 {
        return Ok(proofs);
    }
    let mut summary = String::new();
    push_decimal(&mut summary, failures.len());
    summary.append(" failures: ");
    let joined = join_strings(&failures, "; ");
    summary.append(joined.as_str());
    if proofs.len() > 0 {
        summary.append(". ");
        push_decimal(&mut summary, proofs.len());
        summary.append(" succeeded");
    }
    Err(DenseZKError::PartialFailure(summary, count))
}

} // verus!
