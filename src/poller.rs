//! Readiness poller: "test a condition every `interval` until it holds or
//! `timeout` has passed". The caller evaluates the condition and sleeps; the
//! poller decides, from what the caller reports, whether to stop or to wait.
//! Time is the poller's own clock: the sum of the sleeps it has asked for.

use vstd::prelude::*;

verus! {

/// How long to wait for a condition, and how often to test it.
#[derive(Clone, Copy, PartialEq, Eq, Structural, Debug)]
pub struct ReadyPolicy {
    pub timeout_ms: u64,
    pub interval_ms: u64,
}

impl ReadyPolicy {
    /// A usable policy: `0 < interval <= timeout`, and the sum of the two
    /// fits in a `u64`.
    pub open spec fn wf(self) -> bool {
        0 < self.interval_ms <= self.timeout_ms && self.timeout_ms + self.interval_ms <= u64::MAX
    }

    pub fn is_valid(&self) -> (r: bool)
        ensures
            r == self.wf(),
    {
        0 < self.interval_ms && self.interval_ms <= self.timeout_ms && self.timeout_ms
            <= u64::MAX - self.interval_ms
    }
}

/// The outcome of one evaluation of a readiness condition. An evaluation
/// that failed counts as "not ready yet".
#[derive(Clone, Copy, PartialEq, Eq, Structural, Debug)]
pub enum Probe {
    Ready,
    NotReady,
    Failed,
}

/// What the poller decides after an evaluation.
#[derive(Clone, Copy, PartialEq, Eq, Structural, Debug)]
pub enum PollStep {
    /// The condition holds.
    Satisfied,
    /// The timeout has passed without the condition holding.
    TimedOut,
    /// Sleep this many milliseconds, then evaluate again.
    Sleep(u64),
}

/// A poll in progress: its policy and the time slept so far.
#[derive(Clone, Copy, PartialEq, Eq, Structural, Debug)]
pub struct Poller {
    pub policy: ReadyPolicy,
    pub waited_ms: u64,
}

/// The decision after an evaluation with outcome `probe`.
pub open spec fn poll_next(p: Poller, probe: Probe) -> (Poller, PollStep) {
    if probe == Probe::Ready {
        (p, PollStep::Satisfied)
    } else if p.waited_ms >= p.policy.timeout_ms {
        (p, PollStep::TimedOut)
    } else {
        (
            Poller { policy: p.policy, waited_ms: (p.waited_ms + p.policy.interval_ms) as u64 },
            PollStep::Sleep(p.policy.interval_ms),
        )
    }
}

/// Feeds the outcomes `probes` to the poller, one per evaluation, until it
/// decides; the result is the last state and the decision, `None` if the
/// outcomes ran out first.
pub open spec fn poll_run(p: Poller, probes: Seq<Probe>) -> (Poller, Option<bool>)
    decreases probes.len(),
{
    if probes.len() == 0 {
        (p, None)
    } else {
        let (q, step) = poll_next(p, probes[0]);
        match step {
            PollStep::Satisfied => (q, Some(true)),
            PollStep::TimedOut => (q, Some(false)),
            PollStep::Sleep(_) => poll_run(q, probes.drop_first()),
        }
    }
}

impl Poller {
    /// A poll in progress stays within one interval past its timeout.
    pub open spec fn wf(self) -> bool {
        self.policy.wf() && self.waited_ms < self.policy.timeout_ms + self.policy.interval_ms
    }

    pub open spec fn start(policy: ReadyPolicy) -> Poller {
        Poller { policy, waited_ms: 0 }
    }

    pub fn new(policy: ReadyPolicy) -> (r: Poller)
        requires
            policy.wf(),
        ensures
            r == Poller::start(policy),
            r.wf(),
    {
        Poller { policy, waited_ms: 0 }
    }

    /// Takes the outcome of one evaluation and decides.
    pub fn observe(&mut self, probe: Probe) -> (r: PollStep)
        requires
            old(self).wf(),
        ensures
            (*final(self), r) == poll_next(*old(self), probe),
            final(self).wf(),
    {
        match probe {
            Probe::Ready => PollStep::Satisfied,
            _ => {
                if self.waited_ms >= self.policy.timeout_ms {
                    PollStep::TimedOut
                } else {
                    self.waited_ms = self.waited_ms + self.policy.interval_ms;
                    PollStep::Sleep(self.policy.interval_ms)
                }
            },
        }
    }
}

/// From any state in bounds, polling stays in bounds, and it decides once
/// the outcomes cover the remaining time.
proof fn lemma_poll_run_bound(p: Poller, probes: Seq<Probe>)
    requires
        p.wf(),
    ensures
        poll_run(p, probes).0.wf(),
        poll_run(p, probes).0.policy == p.policy,
        p.waited_ms + (probes.len() - 1) * p.policy.interval_ms >= p.policy.timeout_ms
            ==> poll_run(p, probes).1 is Some,
    decreases probes.len(),
{
    if probes.len() > 0 {
        let (q, step) = poll_next(p, probes[0]);
        if step is Sleep {
            lemma_poll_run_bound(q, probes.drop_first());
            let n = probes.len();
            let i = p.policy.interval_ms;
            assert((n - 1) * i == (n - 2) * i + i) by (nonlinear_arith);
        }
    }
}

/// The readiness bound: whatever the condition reports, a poll returns with
/// no more than `timeout + interval` slept, and it has returned once it has
/// been given `timeout / interval + 2` evaluations.
pub proof fn lemma_ready_bound(policy: ReadyPolicy, probes: Seq<Probe>)
    requires
        policy.wf(),
    ensures
        poll_run(Poller::start(policy), probes).0.waited_ms < policy.timeout_ms
            + policy.interval_ms,
        probes.len() >= policy.timeout_ms / policy.interval_ms + 2 ==> poll_run(
            Poller::start(policy),
            probes,
        ).1 is Some,
{
    lemma_poll_run_bound(Poller::start(policy), probes);
    if probes.len() >= policy.timeout_ms / policy.interval_ms + 2 {
        let t = policy.timeout_ms as int;
        let i = policy.interval_ms as int;
        let n = probes.len() as int;
        assert((n - 1) * i >= t) by (nonlinear_arith)
            requires
                n >= t / i + 2,
                i > 0,
                t >= 0,
        {
            assert(t == (t / i) * i + t % i);
            assert(t % i < i);
            assert((n - 1) * i >= (t / i + 1) * i);
        }
    }
}

} // verus!
