use vstd::prelude::*;

use crate::client::prover::network::ProverNetworkConfig;
use crate::error::DenseZKError;
use crate::prover::local::ZKProof;

verus! {

/// What the caller of the retry loop does next.
#[derive(Debug)]
pub enum RetryAction {
    /// Send the request.
    Send,
    /// Wait this many milliseconds, then send the request again.
    WaitThenSend(u64),
    /// Stop: this is the result of the proving request.
    Finish(Result<ZKProof, DenseZKError>),
}

/// The decisions of a proving request with retries: up to `retry_count`
/// sends, the first success ends it, and after the k-th failed send (when
/// another send remains) the caller waits `k * backoff_ms` milliseconds.
/// The sending and the waiting are the caller's.
#[derive(Debug, Clone, Copy)]
pub struct RetryLoop {
    /// Replies received so far.
    pub attempt: u32,
    pub retry_count: u32,
    pub backoff_ms: u64,
}

impl RetryLoop {
    /// No more replies were taken than sends were allowed.
    pub open spec fn wf(&self) -> bool {
        self.attempt <= self.retry_count
    }

    /// The wait that a failed reply to the latest send would ask for, when
    /// another send remains, fits in a `u64`.
    pub open spec fn wait_fits(&self) -> bool {
        self.attempt + 1 < self.retry_count ==> self.backoff_ms * (self.attempt + 1) <= u64::MAX
    }

    /// The next state and action after a reply to the latest send.
    pub open spec fn next(self, reply: Result<ZKProof, DenseZKError>) -> (RetryLoop, RetryAction) {
        let after = RetryLoop { attempt: (self.attempt + 1) as u32, ..self };
        match reply {
            Ok(p) => (after, RetryAction::Finish(Ok(p))),
            Err(e) => if self.attempt + 1 < self.retry_count {
                (after, RetryAction::WaitThenSend((self.backoff_ms * (self.attempt + 1)) as u64))
            } else {
                (after, RetryAction::Finish(Err(e)))
            },
        }
    }

    /// A retry loop for `config`, and its first action: a send, or, when
    /// no attempt is allowed at all, the result `WitnessGenerationFailed`.
    pub fn start(config: &ProverNetworkConfig) -> (r: (RetryLoop, RetryAction))
        ensures
            r.0 == (RetryLoop {
                attempt: 0,
                retry_count: config.retry_count,
                backoff_ms: config.retry_backoff_ms,
            }),
            r.0.wf(),
            config.retry_count == 0 ==> r.1 == RetryAction::Finish(
                Err(DenseZKError::WitnessGenerationFailed),
            ),
            config.retry_count > 0 ==> r.1 == RetryAction::Send,
    {
        let state = RetryLoop {
            attempt: 0,
            retry_count: config.retry_count,
            backoff_ms: config.retry_backoff_ms,
        };
        if config.retry_count == 0 {
            (state, RetryAction::Finish(Err(DenseZKError::WitnessGenerationFailed)))
        } else {
            (state, RetryAction::Send)
        }
    }

    /// Whether the wait after a failed reply to the latest send fits in a
    /// `u64`; callers that find it does not cannot go on, as the backoff
    /// multiplication overflows.
    pub fn next_wait_fits(&self) -> (b: bool)
        ensures
            b == self.wait_fits(),
            b <==> (self.attempt + 1 < self.retry_count ==> self.backoff_ms * (self.attempt + 1)
                <= u64::MAX),
            self.attempt + 1 >= self.retry_count ==> b,
            self.backoff_ms * (self.attempt + 1) <= u64::MAX ==> b,
            !b ==> self.attempt + 1 < self.retry_count && self.backoff_ms * (self.attempt + 1)
                > u64::MAX,
    {
        if (self.attempt as u64) + 1 < self.retry_count as u64 {
            self.backoff_ms.checked_mul(self.attempt as u64 + 1).is_some()
        } else {
            true
        }
    }

    /// Takes the reply to the latest send and says what to do next.
    pub fn on_reply(&mut self, reply: Result<ZKProof, DenseZKError>) -> (action: RetryAction)
        requires
            old(self).wf(),
            old(self).attempt < old(self).retry_count,
            reply is Err ==> old(self).wait_fits(),
        ensures
            (*final(self), action) == old(self).next(reply),
            final(self).wf(),
    {
        let attempt = self.attempt;
        self.attempt = attempt + 1;
        match reply {
            Ok(p) => RetryAction::Finish(Ok(p)),
            Err(e) => {
                if attempt + 1 < self.retry_count {
                    RetryAction::WaitThenSend(self.backoff_ms * (attempt as u64 + 1))
                } else {
                    RetryAction::Finish(Err(e))
                }
            },
        }
    }
}

/// When every wait a configuration can ask for fits in a `u64` (the
/// largest is `backoff_ms * (retry_count - 1)`), the wait check passes at
/// every attempt, so no retry is ever refused; and a failed reply with
/// another send left then asks for exactly `backoff_ms * (attempt + 1)`.
pub proof fn lemma_fitting_backoff_never_refused(state: RetryLoop, e: DenseZKError)
    requires
        state.attempt < state.retry_count,
        (state.retry_count - 1) * state.backoff_ms <= u64::MAX,
    ensures
        state.wait_fits(),
        state.attempt + 1 < state.retry_count ==> state.next(Err(e)).1 == RetryAction::WaitThenSend(
            (state.backoff_ms * (state.attempt + 1)) as u64,
        ) && state.backoff_ms * (state.attempt + 1) <= u64::MAX,
{
    if state.attempt + 1 < state.retry_count {
        assert(state.backoff_ms * (state.attempt + 1) <= (state.retry_count - 1) * state.backoff_ms)
            by (nonlinear_arith)
            requires
                state.attempt + 1 <= state.retry_count - 1,
        ;
    }
}

/// The course of a retry loop fed `replies` in order, one per send:
/// (sends made, waits asked for, result), the result being `None` when the
/// replies ran out first.
pub open spec fn run_from(state: RetryLoop, replies: Seq<Result<ZKProof, DenseZKError>>) -> (
    nat,
    Seq<u64>,
    Option<Result<ZKProof, DenseZKError>>,
)
    decreases replies.len(),
{
    if replies.len() == 0 {
        (0, Seq::empty(), None)
    } else {
        let (s2, action) = state.next(replies[0]);
        match action {
            RetryAction::Finish(r) => (1, Seq::empty(), Some(r)),
            RetryAction::WaitThenSend(ms) => {
                let (n, waits, r) = run_from(s2, replies.drop_first());
                (n + 1, seq![ms] + waits, r)
            },
            RetryAction::Send => (1, Seq::empty(), None),
        }
    }
}

/// The course of a whole proving request with `retry_count` attempts and
/// the given backoff, when the sends get `replies` in order.
pub open spec fn retry_run(
    retry_count: u32,
    backoff_ms: u64,
    replies: Seq<Result<ZKProof, DenseZKError>>,
) -> (nat, Seq<u64>, Option<Result<ZKProof, DenseZKError>>) {
    if retry_count == 0 {
        (0, Seq::empty(), Some(Err(DenseZKError::WitnessGenerationFailed)))
    } else {
        run_from(RetryLoop { attempt: 0, retry_count, backoff_ms }, replies)
    }
}

proof fn lemma_run_from(state: RetryLoop, replies: Seq<Result<ZKProof, DenseZKError>>)
    requires
        state.wf(),
        state.attempt < state.retry_count,
        replies.len() >= state.retry_count - state.attempt,
    ensures
        ({
            let (sends, waits, result) = run_from(state, replies);
            &&& 1 <= sends <= state.retry_count - state.attempt
            &&& result == Some(replies[sends - 1])
            &&& forall|j: int| 0 <= j < sends - 1 ==> #[trigger] replies[j] is Err
            &&& replies[sends - 1] is Ok || sends == state.retry_count - state.attempt
            &&& waits == Seq::new(
                (sends - 1) as nat,
                |j: int| (state.backoff_ms * (state.attempt + j + 1)) as u64,
            )
        }),
    decreases replies.len(),
{
    let (s2, action) = state.next(replies[0]);
    match replies[0] {
        Ok(p) => {},
        Err(e) => {
            if state.attempt + 1 < state.retry_count {
                lemma_run_from(s2, replies.drop_first());
                let (n, waits, r) = run_from(s2, replies.drop_first());
                let (sends, all_waits, result) = run_from(state, replies);
                assert(sends == n + 1);
                assert forall|j: int| 0 <= j < sends - 1 implies #[trigger] replies[j] is Err by {
                    if j > 0 {
                        assert(replies[j] == replies.drop_first()[j - 1]);
                    }
                }
                assert(all_waits =~= Seq::new(
                    (sends - 1) as nat,
                    |j: int| (state.backoff_ms * (state.attempt + j + 1)) as u64,
                ));
            }
        },
    }
}

/// The total of a sequence of waits, in milliseconds.
pub open spec fn total_wait(waits: Seq<u64>) -> int
    decreases waits.len(),
{
    if waits.len() == 0 {
        0
    } else {
        total_wait(waits.drop_last()) + waits.last()
    }
}

proof fn lemma_linear_waits_total(backoff_ms: u64, k: nat)
    ensures
        2 * total_wait(Seq::new(k, |j: int| (backoff_ms * (j + 1)) as u64)) <= backoff_ms * k * (k
            + 1),
        k * backoff_ms <= u64::MAX ==> 2 * total_wait(
            Seq::new(k, |j: int| (backoff_ms * (j + 1)) as u64),
        ) == backoff_ms * k * (k + 1),
    decreases k,
{
    let waits = Seq::new(k, |j: int| (backoff_ms * (j + 1)) as u64);
    if k == 0 {
        assert(backoff_ms * k * (k + 1) == 0) by (nonlinear_arith)
            requires
                k == 0,
        ;
    } else {
        let j = (k - 1) as nat;
        assert((k - 1) * backoff_ms <= k * backoff_ms) by (nonlinear_arith)
            requires
                k >= 1,
        ;
        lemma_linear_waits_total(backoff_ms, j);
        assert(waits.drop_last() =~= Seq::new(j, |i: int| (backoff_ms * (i + 1)) as u64));
        assert(backoff_ms * k == k * backoff_ms) by (nonlinear_arith);
        let last = waits.last();
        assert(last == (backoff_ms * k) as u64);
        assert(last <= backoff_ms * k);
        assert(k * backoff_ms <= u64::MAX ==> last == backoff_ms * k);
        assert(backoff_ms * j * (j + 1) + 2 * (backoff_ms * k) == backoff_ms * k * (k + 1))
            by (nonlinear_arith)
            requires
                j + 1 == k,
        ;
        assert(total_wait(waits) == total_wait(waits.drop_last()) + waits.last());
    }
}

/// A proving request with retries returns the first success among its
/// first `retry_count` replies, after as many sends as it took; when all of
/// them fail, it returns the last failure after exactly `retry_count` sends;
/// with no attempt allowed it sends nothing and fails with
/// `WitnessGenerationFailed`. Between consecutive sends it waits
/// `backoff_ms`, then `2 * backoff_ms`, and so on, so that it waits
/// `backoff_ms * (sends - 1) * sends / 2` in all (the program stops when
/// one of these waits would overflow a `u64`), never more than
/// `backoff_ms * retry_count * (retry_count - 1) / 2`.
pub proof fn lemma_retry_run(
    retry_count: u32,
    backoff_ms: u64,
    replies: Seq<Result<ZKProof, DenseZKError>>,
)
    requires
        replies.len() >= retry_count,
    ensures
        ({
            let (sends, waits, result) = retry_run(retry_count, backoff_ms, replies);
            &&& sends <= retry_count
            &&& retry_count == 0 ==> sends == 0 && result == Some(
                Err::<ZKProof, DenseZKError>(DenseZKError::WitnessGenerationFailed),
            )
            &&& retry_count > 0 ==> {
                &&& sends >= 1
                &&& result == Some(replies[sends - 1])
                &&& forall|j: int| 0 <= j < sends - 1 ==> #[trigger] replies[j] is Err
                &&& replies[sends - 1] is Ok || sends == retry_count
                &&& waits == Seq::new(
                    (sends - 1) as nat,
                    |j: int| (backoff_ms * (j + 1)) as u64,
                )
                &&& (sends - 1) * backoff_ms <= u64::MAX ==> forall|j: int|
                    0 <= j < waits.len() ==> #[trigger] waits[j] == backoff_ms * (j + 1)
                &&& (sends - 1) * backoff_ms <= u64::MAX ==> 2 * total_wait(waits) == backoff_ms
                    * (sends - 1) * sends
                &&& 2 * total_wait(waits) <= backoff_ms * retry_count * (retry_count - 1)
            }
        }),
{
    if retry_count > 0 {
        let state = RetryLoop { attempt: 0, retry_count, backoff_ms };
        lemma_run_from(state, replies);
        let (sends, waits, result) = run_from(state, replies);
        assert(waits =~= Seq::new((sends - 1) as nat, |j: int| (backoff_ms * (j + 1)) as u64));
        let k = (sends - 1) as nat;
        lemma_linear_waits_total(backoff_ms, k);
        assert forall|j: int| 0 <= j < waits.len() && k * backoff_ms <= u64::MAX implies #[trigger] waits[j]
            == backoff_ms * (j + 1) by {
            assert(backoff_ms * (j + 1) <= backoff_ms * k) by (nonlinear_arith)
                requires
                    j + 1 <= k,
            ;
            assert(backoff_ms * k == k * backoff_ms) by (nonlinear_arith);
        }
        let r = retry_count as int;
        assert(backoff_ms * k * (k + 1) <= backoff_ms * r * (r - 1)) by (nonlinear_arith)
            requires
                k + 1 <= r,
                k >= 0,
        ;
    }
}

} // verus!
