use vstd::prelude::*;

use crate::cursor::{cursor_follows, follows, IndexingCursor};

verus! {

/// How one iteration of the polling loop ended.
pub enum PageOutcome {
    /// Every job of the page was processed; the page's cursor is ready to commit.
    Completed(IndexingCursor),
    /// A fetch or a job failed; nothing is committed and the page is fetched again.
    Failed,
}

/// The committed cursor after an iteration: the page's cursor when the page
/// completed and that cursor follows the committed one, else the committed one.
pub open spec fn commit_spec(committed: IndexingCursor, outcome: PageOutcome) -> IndexingCursor {
    match outcome {
        PageOutcome::Completed(next) => if cursor_follows(committed, next) {
            next
        } else {
            committed
        },
        PageOutcome::Failed => committed,
    }
}

/// Decides the cursor to persist at the end of an iteration.
pub fn commit(committed: IndexingCursor, outcome: PageOutcome) -> (r: IndexingCursor)
    ensures
        r == commit_spec(committed, outcome),
{
    match outcome {
        PageOutcome::Completed(next) => if follows(&committed, &next) {
            next
        } else {
            committed
        },
        PageOutcome::Failed => committed,
    }
}

/// The cursors committed over a run of iterations that start from `start`.
pub open spec fn committed_run(start: IndexingCursor, outcomes: Seq<PageOutcome>) -> Seq<IndexingCursor>
    decreases outcomes.len(),
{
    if outcomes.len() == 0 {
        seq![start]
    } else {
        let prev = committed_run(start, outcomes.drop_last());
        prev.push(commit_spec(prev.last(), outcomes.last()))
    }
}

/// When to wake again: the wake interval while fetches succeed; after
/// failures, the interval doubled once per consecutive failure, up to a cap.
#[derive(Debug, Clone, Copy, PartialEq, Eq, Structural)]
pub struct RetryPolicy {
    pub interval_ms: u64,
    pub max_delay_ms: u64,
}

pub open spec fn pow2(n: nat) -> nat
    decreases n,
{
    if n == 0 {
        1
    } else {
        2 * pow2((n - 1) as nat)
    }
}

/// The wait before the next wake after `failures` consecutive failures.
pub open spec fn delay_spec(p: RetryPolicy, failures: nat) -> nat {
    let d = (p.interval_ms * pow2(failures)) as nat;
    if failures == 0 {
        p.interval_ms as nat
    } else if d < p.max_delay_ms {
        d
    } else if p.interval_ms <= p.max_delay_ms {
        p.max_delay_ms as nat
    } else {
        p.interval_ms as nat
    }
}

impl RetryPolicy {
    /// The milliseconds to wait before the next wake.
    pub fn delay_ms(&self, failures: u32) -> (r: u64)
        ensures
            r as nat == delay_spec(*self, failures as nat),
    {
        if failures == 0 {
            return self.interval_ms;
        }
        let cap: u64 = if self.interval_ms <= self.max_delay_ms {
            self.max_delay_ms
        } else {
            self.interval_ms
        };
        let mut d: u64 = self.interval_ms;
        let mut k: u32 = 0;
        assert(pow2(0) == 1) by {
            reveal_with_fuel(pow2, 1);
        }
        assert(self.interval_ms * 1 == self.interval_ms);
        while k < failures
            invariant
                failures > 0,
                cap == if self.interval_ms <= self.max_delay_ms {
                    self.max_delay_ms
                } else {
                    self.interval_ms
                },
                k <= failures,
                d as nat == self.interval_ms * pow2(k as nat),
            decreases failures - k,
        {
            if d >= self.max_delay_ms || d > u64::MAX / 2 {
                proof {
                    lemma_delay_past_cap(*self, k as nat, failures as nat);
                }
                return cap;
            }
            proof {
                assert(pow2((k + 1) as nat) == 2 * pow2(k as nat));
                assert(self.interval_ms * pow2((k + 1) as nat) == 2 * (self.interval_ms * pow2(
                    k as nat,
                ))) by (nonlinear_arith)
                    requires pow2((k + 1) as nat) == 2 * pow2(k as nat);
            }
            d = d * 2;
            k = k + 1;
        }
        if d < self.max_delay_ms {
            d
        } else {
            cap
        }
    }
}

proof fn lemma_pow2_mono(a: nat, b: nat)
    requires
        a <= b,
    ensures
        pow2(a) <= pow2(b),
    decreases b,
{
    if a < b {
        lemma_pow2_mono(a, (b - 1) as nat);
    }
}

proof fn lemma_delay_past_cap(p: RetryPolicy, k: nat, n: nat)
    requires
        k < n,
        p.interval_ms * pow2(k) >= p.max_delay_ms || p.interval_ms * pow2(k) > u64::MAX / 2,
    ensures
        p.interval_ms * pow2(n) >= p.max_delay_ms,
{
    lemma_pow2_mono(k, n);
    assert(p.interval_ms * pow2(k) <= p.interval_ms * pow2(n)) by (nonlinear_arith)
        requires pow2(k) <= pow2(n);
    if p.interval_ms * pow2(k) > u64::MAX / 2 {
        lemma_pow2_mono(k + 1, n);
        assert(p.interval_ms * pow2(k + 1) == 2 * (p.interval_ms * pow2(k))) by (nonlinear_arith)
            requires pow2(k + 1) == 2 * pow2(k);
        assert(p.interval_ms * pow2(k + 1) <= p.interval_ms * pow2(n)) by (nonlinear_arith)
            requires pow2(k + 1) <= pow2(n);
    }
}

} // verus!
