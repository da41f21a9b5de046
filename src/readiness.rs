use vstd::prelude::*;

use crate::error::Ec2CliError;

verus! {

/// Seconds between two status queries.
pub const POLL_INTERVAL_SECS: u64 = 5;

/// Recommended bound on the wait for the instance to run.
pub const RUNNING_TIMEOUT_SECS: u64 = 300;

/// Recommended bound on the wait for the management agent; the agent starts
/// well after the instance.
pub const AGENT_TIMEOUT_SECS: u64 = 600;

/// The operational state that the provider reports for an instance.
#[derive(PartialEq, Eq, Structural, Clone, Copy, Debug)]
pub enum InstanceStatus {
    Pending,
    Running,
    ShuttingDown,
    Terminated,
    Stopping,
    Stopped,
    Unknown,
}

/// The connection status that the management service reports for an agent.
#[derive(PartialEq, Eq, Structural, Clone, Copy, Debug)]
pub enum AgentStatus {
    Online,
    ConnectionLost,
    Inactive,
    Unknown,
}

/// One agent registration that the management service listed.
pub struct AgentRegistration {
    pub instance_id: String,
    pub status: AgentStatus,
}

impl InstanceStatus {
    /// The ready predicate of the first wait.
    pub fn is_running(&self) -> (r: bool)
        ensures
            r == (*self == InstanceStatus::Running),
    {
        *self == InstanceStatus::Running
    }
}

/// Whether some registration shows the agent of `instance_id` online.
pub open spec fn agent_online_spec(registrations: Seq<AgentRegistration>, instance_id: Seq<char>) -> bool {
    exists|i: int|
        0 <= i < registrations.len() && (#[trigger] registrations[i]).instance_id@ == instance_id
            && registrations[i].status == AgentStatus::Online
}

/// The ready predicate of the second wait.
pub fn agent_online(registrations: &Vec<AgentRegistration>, instance_id: &String) -> (r: bool)
    ensures
        r == agent_online_spec(registrations@, instance_id@),
{
    let mut i: usize = 0;
    while i < registrations.len()
        invariant
            i <= registrations@.len(),
            forall|j: int|
                0 <= j < i ==> !((#[trigger] registrations@[j]).instance_id@ == instance_id@
                    && registrations@[j].status == AgentStatus::Online),
        decreases registrations@.len() - i,
    {
        let reg = &registrations[i];
        if reg.instance_id == *instance_id && reg.status == AgentStatus::Online {
            assert(registrations@[i as int] == *reg);
            return true;
        }
        i += 1;
    }
    false
}

/// What the caller does after a status query.
#[derive(PartialEq, Eq, Structural, Clone, Copy, Debug)]
pub enum PollDecision {
    /// The ready predicate holds: the wait succeeds.
    Ready,
    /// Sleep this many seconds, then query again.
    Sleep(u64),
    /// The bound has passed: the wait fails.
    TimedOut,
}

/// A bounded wait for a ready predicate, queried every `interval_secs`.
#[derive(PartialEq, Eq, Structural, Clone, Copy, Debug)]
pub struct ReadinessWait {
    pub timeout_secs: u64,
    pub interval_secs: u64,
}

impl ReadinessWait {
    /// On each tick: ready wins; otherwise the wait fails once more than
    /// `timeout_secs` have elapsed, and else sleeps one interval.
    pub open spec fn decision(self, ready: bool, elapsed_secs: u64) -> PollDecision {
        if ready {
            PollDecision::Ready
        } else if elapsed_secs > self.timeout_secs {
            PollDecision::TimedOut
        } else {
            PollDecision::Sleep(self.interval_secs)
        }
    }

    pub fn new(timeout_secs: u64, interval_secs: u64) -> (r: ReadinessWait)
        ensures
            r.timeout_secs == timeout_secs,
            r.interval_secs == interval_secs,
    {
        ReadinessWait { timeout_secs, interval_secs }
    }

    /// Decides a tick from the queried status and the seconds elapsed since
    /// the wait began.
    pub fn decide(&self, ready: bool, elapsed_secs: u64) -> (r: PollDecision)
        ensures
            r == self.decision(ready, elapsed_secs),
    {
        if ready {
            PollDecision::Ready
        } else if elapsed_secs > self.timeout_secs {
            PollDecision::TimedOut
        } else {
            PollDecision::Sleep(self.interval_secs)
        }
    }

    /// The error of a wait for `what` that timed out.
    pub fn timeout_error(&self, what: &str) -> (r: Ec2CliError)
        ensures
            r matches Ec2CliError::Timeout(m) && m@ == what@ + " did not become ready in time"@,
    {
        let mut m = String::from_str(what);
        m.append(" did not become ready in time");
        Ec2CliError::Timeout(m)
    }

    /// How a wait ends when the status queries give `ready` in turn, tick `i`
    /// coming `i` intervals after the start: the tick it ends on and whether
    /// it succeeded. `None` if the queries run out first.
    pub open spec fn run_from(self, ready: Seq<bool>, i: nat) -> Option<(nat, bool)>
        decreases ready.len() - i,
    {
        if i >= ready.len() {
            None
        } else if ready[i as int] {
            Some((i, true))
        } else if i * self.interval_secs > self.timeout_secs {
            Some((i, false))
        } else {
            self.run_from(ready, i + 1)
        }
    }

    pub open spec fn run(self, ready: Seq<bool>) -> Option<(nat, bool)> {
        self.run_from(ready, 0)
    }
}

/// A wait succeeds on the first tick whose status is ready, provided that
/// tick comes no later than the bound.
pub proof fn lemma_ready_before_timeout(w: ReadinessWait, ready: Seq<bool>, k: nat)
    requires
        k < ready.len(),
        ready[k as int],
        forall|j: int| 0 <= j < k ==> !ready[j],
        k * w.interval_secs <= w.timeout_secs,
    ensures
        w.run(ready) == Some((k, true)),
{
    lemma_run_reaches(w, ready, 0, k);
}

proof fn lemma_run_reaches(w: ReadinessWait, ready: Seq<bool>, i: nat, k: nat)
    requires
        i <= k < ready.len(),
        ready[k as int],
        forall|j: int| 0 <= j < k ==> !ready[j],
        k * w.interval_secs <= w.timeout_secs,
    ensures
        w.run_from(ready, i) == Some((k, true)),
    decreases k - i,
{
    if i < k {
        assert(!ready[i as int]);
        assert(i * w.interval_secs <= k * w.interval_secs) by (nonlinear_arith)
            requires
                i <= k,
        ;
        lemma_run_reaches(w, ready, i + 1, k);
    }
}

/// A wait whose status never becomes ready fails on the first tick past the
/// bound, once the queries reach that far.
pub proof fn lemma_never_ready_times_out(w: ReadinessWait, ready: Seq<bool>, k: nat)
    requires
        k < ready.len(),
        forall|j: int| 0 <= j < ready.len() ==> !ready[j],
        k * w.interval_secs > w.timeout_secs,
        forall|j: nat| j < k ==> #[trigger] (j * w.interval_secs) <= w.timeout_secs,
    ensures
        w.run(ready) == Some((k, false)),
{
    lemma_run_times_out(w, ready, 0, k);
}

proof fn lemma_run_times_out(w: ReadinessWait, ready: Seq<bool>, i: nat, k: nat)
    requires
        i <= k < ready.len(),
        forall|j: int| 0 <= j < ready.len() ==> !ready[j],
        k * w.interval_secs > w.timeout_secs,
        forall|j: nat| j < k ==> #[trigger] (j * w.interval_secs) <= w.timeout_secs,
    ensures
        w.run_from(ready, i) == Some((k, false)),
    decreases k - i,
{
    if i < k {
        assert(i * w.interval_secs <= w.timeout_secs);
        lemma_run_times_out(w, ready, i + 1, k);
    }
}

} // verus!
