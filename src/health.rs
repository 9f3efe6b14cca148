use vstd::prelude::*;

verus! {

/// Address of the primary service's health endpoint.
pub const HEALTH_URL: &'static str = "http://localhost:11690/health";

/// Most polls made before startup is declared too slow.
pub const MAX_HEALTH_ATTEMPTS: u32 = 120;

/// Wait between two polls, in milliseconds.
pub const HEALTH_RETRY_INTERVAL_MS: u64 = 1000;

/// The body of the primary service's health endpoint.
#[derive(Clone, Copy, Debug)]
pub struct OpenWebUiHealthStatus {
    /// Whether the server is healthy.
    pub status: bool,
}

/// What to do after a poll.
#[derive(PartialEq, Eq, Structural, Debug, Clone, Copy)]
pub enum GateDecision {
    /// The primary service is healthy: startup may go on.
    Healthy,
    /// Wait this many milliseconds, then poll again.
    RetryAfter(u64),
    /// Every attempt is spent: startup took too long.
    TimedOut,
}

/// Bounded polling of the primary service's health.
#[derive(Clone, Copy, Debug)]
pub struct HealthGate {
    attempts: u32,
    max_attempts: u32,
    interval_ms: u64,
}

/// The decision after a poll, given the polls made before it.
pub open spec fn gate_decision(attempts: nat, max: nat, interval: u64, healthy: bool) -> GateDecision {
    if attempts >= max {
        GateDecision::TimedOut
    } else if healthy {
        GateDecision::Healthy
    } else if attempts + 1 >= max {
        GateDecision::TimedOut
    } else {
        GateDecision::RetryAfter(interval)
    }
}

/// The number of polls counted after a poll: none is counted once every
/// attempt is spent.
pub open spec fn attempts_after(attempts: nat, max: nat) -> nat {
    if attempts >= max {
        attempts
    } else {
        attempts + 1
    }
}

/// Feeds poll results to a gate, in order, until it stops asking to retry:
/// the last decision and the polls counted.
pub open spec fn gate_run(attempts: nat, max: nat, interval: u64, responses: Seq<bool>) -> (
    GateDecision,
    nat,
)
    decreases responses.len(),
{
    if responses.len() == 0 {
        (GateDecision::RetryAfter(interval), attempts)
    } else {
        let d = gate_decision(attempts, max, interval, responses[0]);
        let a = attempts_after(attempts, max);
        if d is RetryAfter {
            gate_run(a, max, interval, responses.drop_first())
        } else {
            (d, a)
        }
    }
}

impl HealthGate {
    pub closed spec fn attempts_made(&self) -> nat {
        self.attempts as nat
    }

    pub closed spec fn attempt_limit(&self) -> nat {
        self.max_attempts as nat
    }

    pub closed spec fn interval(&self) -> u64 {
        self.interval_ms
    }

    pub closed spec fn wf(&self) -> bool {
        self.attempts <= self.max_attempts
    }

    /// A gate that polls up to 120 times, one second apart.
    pub fn new() -> (r: Self)
        ensures
            r.wf(),
            r.attempts_made() == 0,
            r.attempt_limit() == MAX_HEALTH_ATTEMPTS,
            r.interval() == HEALTH_RETRY_INTERVAL_MS,
    {
        HealthGate {
            attempts: 0,
            max_attempts: MAX_HEALTH_ATTEMPTS,
            interval_ms: HEALTH_RETRY_INTERVAL_MS,
        }
    }

    /// A gate with its own bound and wait.
    pub fn with_policy(max_attempts: u32, interval_ms: u64) -> (r: Self)
        ensures
            r.wf(),
            r.attempts_made() == 0,
            r.attempt_limit() == max_attempts,
            r.interval() == interval_ms,
    {
        HealthGate { attempts: 0, max_attempts, interval_ms }
    }

    /// The polls counted so far.
    pub fn attempts(&self) -> (r: u32)
        ensures
            r == self.attempts_made(),
    {
        self.attempts
    }

    /// Records the result of one poll and decides what comes next.
    pub fn record(&mut self, healthy: bool) -> (d: GateDecision)
        requires
            old(self).wf(),
        ensures
            final(self).wf(),
            d == gate_decision(old(self).attempts_made(), old(self).attempt_limit(), old(self).interval(), healthy),
            final(self).attempts_made() == attempts_after(old(self).attempts_made(), old(self).attempt_limit()),
            final(self).attempt_limit() == old(self).attempt_limit(),
            final(self).interval() == old(self).interval(),
            final(self).attempts_made() <= final(self).attempt_limit(),
    {
        if self.attempts >= self.max_attempts {
            return GateDecision::TimedOut;
        }
        self.attempts = self.attempts + 1;
        if healthy {
            GateDecision::Healthy
        } else if self.attempts >= self.max_attempts {
            GateDecision::TimedOut
        } else {
            GateDecision::RetryAfter(self.interval_ms)
        }
    }
}

/// Whether a poll within the first `k` of `responses` was healthy.
pub open spec fn healthy_within(responses: Seq<bool>, k: int) -> bool {
    exists|i: int| 0 <= i < responses.len() && i < k && #[trigger] responses[i]
}

/// A gate never counts more polls than its bound.
pub proof fn lemma_gate_run_bounded(attempts: nat, max: nat, interval: u64, responses: Seq<bool>)
    requires
        attempts <= max,
    ensures
        gate_run(attempts, max, interval, responses).1 <= max,
    decreases responses.len(),
{
    if responses.len() > 0 {
        lemma_gate_run_bounded(attempts_after(attempts, max), max, interval, responses.drop_first());
    }
}

/// A gate reports healthy at the first healthy poll among those it still has.
pub proof fn lemma_gate_run_first_healthy(
    attempts: nat,
    max: nat,
    interval: u64,
    responses: Seq<bool>,
    i: int,
)
    requires
        0 <= i < responses.len(),
        i < max - attempts,
        responses[i],
        forall|j: int| 0 <= j < i ==> !responses[j],
    ensures
        gate_run(attempts, max, interval, responses) == (GateDecision::Healthy, (attempts + i
            + 1) as nat),
    decreases responses.len(),
{
    if i > 0 {
        let rest = responses.drop_first();
        assert(!responses[0]);
        assert forall|j: int| 0 <= j < i - 1 implies !rest[j] by {
            assert(!responses[j + 1]);
        }
        lemma_gate_run_first_healthy(attempts + 1, max, interval, rest, i - 1);
    }
}

/// A gate none of whose remaining polls is healthy never reports healthy,
/// and once those polls have come it has timed out at its bound.
pub proof fn lemma_gate_run_unhealthy(attempts: nat, max: nat, interval: u64, responses: Seq<bool>)
    requires
        attempts <= max,
        !healthy_within(responses, max - attempts),
    ensures
        !(gate_run(attempts, max, interval, responses).0 is Healthy),
        responses.len() > 0 && responses.len() >= max - attempts ==> gate_run(
            attempts,
            max,
            interval,
            responses,
        ) == (GateDecision::TimedOut, max),
    decreases responses.len(),
{
    if responses.len() > 0 && attempts < max {
        let rest = responses.drop_first();
        assert(!responses[0]);
        if healthy_within(rest, max - (attempts + 1)) {
            let i = choose|i: int|
                0 <= i < rest.len() && i < max - (attempts + 1) && #[trigger] rest[i];
            assert(responses[i + 1]);
        }
        lemma_gate_run_unhealthy(attempts + 1, max, interval, rest);
    }
}

/// Whether the first `i` polls were all unhealthy.
pub open spec fn none_healthy_before(responses: Seq<bool>, i: int) -> bool {
    forall|j: int| 0 <= j < i ==> !responses[j]
}

proof fn lemma_first_healthy_exists(responses: Seq<bool>, k: int) -> (i: int)
    requires
        healthy_within(responses, k),
    ensures
        0 <= i < responses.len(),
        i < k,
        responses[i],
        none_healthy_before(responses, i),
    decreases responses.len(),
{
    if responses[0] {
        0
    } else {
        let w = choose|w: int| 0 <= w < responses.len() && w < k && #[trigger] responses[w];
        let rest = responses.drop_first();
        assert(rest[w - 1]);
        let i = lemma_first_healthy_exists(rest, k - 1);
        assert forall|j: int| 0 <= j < i + 1 implies !responses[j] by {
            if j > 0 {
                assert(responses[j] == rest[j - 1]);
            }
        }
        i + 1
    }
}

/// The default gate, fed any poll results: it reports healthy exactly when
/// one of the first 120 polls is healthy, right at the first healthy poll,
/// never counts more than 120 polls, and otherwise times out at the 120th.
pub proof fn lemma_health_gate_bounded(responses: Seq<bool>)
    ensures
        gate_run(0, MAX_HEALTH_ATTEMPTS as nat, HEALTH_RETRY_INTERVAL_MS, responses).1 <= 120,
        gate_run(0, MAX_HEALTH_ATTEMPTS as nat, HEALTH_RETRY_INTERVAL_MS, responses).0 is Healthy
            <==> healthy_within(responses, 120),
        forall|i: int|
            0 <= i < responses.len() && i < 120 && #[trigger] responses[i]
                && none_healthy_before(responses, i) ==> gate_run(
                0,
                MAX_HEALTH_ATTEMPTS as nat,
                HEALTH_RETRY_INTERVAL_MS,
                responses,
            ) == (GateDecision::Healthy, (i + 1) as nat),
        responses.len() >= 120 && !healthy_within(responses, 120) ==> gate_run(
            0,
            MAX_HEALTH_ATTEMPTS as nat,
            HEALTH_RETRY_INTERVAL_MS,
            responses,
        ) == (GateDecision::TimedOut, 120nat),
{
    let max = MAX_HEALTH_ATTEMPTS as nat;
    let iv = HEALTH_RETRY_INTERVAL_MS;
    lemma_gate_run_bounded(0, max, iv, responses);
    if healthy_within(responses, 120) {
        let i = lemma_first_healthy_exists(responses, 120);
        lemma_gate_run_first_healthy(0, max, iv, responses, i);
    } else {
        lemma_gate_run_unhealthy(0, max, iv, responses);
    }
    assert forall|i: int|
        0 <= i < responses.len() && i < 120 && #[trigger] responses[i] && none_healthy_before(
            responses,
            i,
        ) implies gate_run(0, max, iv, responses) == (GateDecision::Healthy, (i + 1) as nat) by {
        lemma_gate_run_first_healthy(0, max, iv, responses, i);
    }
}

} // verus!
