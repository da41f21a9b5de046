use ec2_cli::readiness::{
    agent_online, AgentRegistration, AgentStatus, InstanceStatus, PollDecision, ReadinessWait,
    AGENT_TIMEOUT_SECS, POLL_INTERVAL_SECS, RUNNING_TIMEOUT_SECS,
};
use ec2_cli::Ec2CliError;

/// Runs a wait against scripted statuses, tick `i` at `i` intervals.
fn simulate(wait: &ReadinessWait, statuses: &[InstanceStatus]) -> Option<(usize, PollDecision)> {
    let mut elapsed = 0u64;
    for (i, s) in statuses.iter().enumerate() {
        match wait.decide(s.is_running(), elapsed) {
            PollDecision::Sleep(secs) => elapsed += secs,
            done => return Some((i, done)),
        }
    }
    None
}

#[test]
fn pending_then_running_succeeds() {
    let wait = ReadinessWait::new(RUNNING_TIMEOUT_SECS, POLL_INTERVAL_SECS);
    let statuses = [InstanceStatus::Pending, InstanceStatus::Pending, InstanceStatus::Running];
    assert_eq!(simulate(&wait, &statuses), Some((2, PollDecision::Ready)));
}

#[test]
fn never_running_times_out() {
    let wait = ReadinessWait::new(12, 5);
    let statuses = [InstanceStatus::Pending; 10];
    assert_eq!(simulate(&wait, &statuses), Some((3, PollDecision::TimedOut)));
    let err = wait.timeout_error("instance i-1");
    assert!(matches!(err, Ec2CliError::Timeout(m) if m == "instance i-1 did not become ready in time"));
}

#[test]
fn decide_each_branch() {
    let wait = ReadinessWait::new(10, 2);
    assert_eq!(wait.decide(true, 100), PollDecision::Ready);
    assert_eq!(wait.decide(false, 10), PollDecision::Sleep(2));
    assert_eq!(wait.decide(false, 11), PollDecision::TimedOut);
    assert_eq!(wait.decide(false, 0), PollDecision::Sleep(2));
}

#[test]
fn recommended_bounds() {
    assert!(POLL_INTERVAL_SECS < RUNNING_TIMEOUT_SECS);
    assert!(RUNNING_TIMEOUT_SECS < AGENT_TIMEOUT_SECS);
}

#[test]
fn agent_readiness_predicate() {
    let regs = vec![
        AgentRegistration { instance_id: "i-1".to_string(), status: AgentStatus::ConnectionLost },
        AgentRegistration { instance_id: "i-2".to_string(), status: AgentStatus::Online },
    ];
    assert!(agent_online(&regs, &"i-2".to_string()));
    assert!(!agent_online(&regs, &"i-1".to_string()));
    assert!(!agent_online(&regs, &"i-3".to_string()));
    assert!(!agent_online(&Vec::new(), &"i-2".to_string()));
}

#[test]
fn only_running_is_ready() {
    assert!(InstanceStatus::Running.is_running());
    for s in [
        InstanceStatus::Pending,
        InstanceStatus::ShuttingDown,
        InstanceStatus::Terminated,
        InstanceStatus::Stopping,
        InstanceStatus::Stopped,
        InstanceStatus::Unknown,
    ] {
        assert!(!s.is_running());
    }
}
