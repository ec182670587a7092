use procjail::spawn::{
    event_fits, spawn_step, start_spawn, SpawnAction, SpawnEvent, SpawnFailure, SpawnState, SpawnStep,
};
use procjail::{SandboxConfig, Strategy};

/// Runs the protocol on a list of outcomes and returns every step.
fn run(config: &SandboxConfig, events: &[SpawnEvent]) -> Vec<SpawnStep> {
    let mut step = start_spawn();
    let mut out = vec![step];
    for e in events {
        assert!(event_fits(step.state, *e), "{e:?} does not answer {:?}", step.state);
        step = spawn_step(config, step.state, *e);
        out.push(step);
    }
    out
}

const PID: u32 = 4242;

fn through_pipes(strategy_event: Option<Strategy>) -> Vec<SpawnEvent> {
    let mut v = vec![SpawnEvent::RuntimeLookedUp { found: true }];
    if let Some(s) = strategy_event {
        v.push(SpawnEvent::StrategyDetected { strategy: s });
    }
    v.push(SpawnEvent::CommandBuilt { ok: true });
    v.push(SpawnEvent::ProcessStarted { pid: PID });
    v.push(SpawnEvent::PipesTaken { ok: true });
    v
}

#[test]
fn spawn_happy_path_with_timeout() {
    let config = SandboxConfig::builder().timeout_seconds(30).build();
    let mut events = through_pipes(Some(Strategy::Bubblewrap));
    events.extend([SpawnEvent::CgroupCreated { ok: true }, SpawnEvent::LimitsWritten { ok: true }, SpawnEvent::WatchdogStarted]);
    let steps = run(&config, &events);
    let actions: Vec<SpawnAction> = steps.iter().map(|s| s.action).collect();
    assert_eq!(
        actions,
        vec![
            SpawnAction::LookUpRuntime,
            SpawnAction::DetectStrategy,
            SpawnAction::BuildCommand { strategy: Strategy::Bubblewrap },
            SpawnAction::Launch { strategy: Strategy::Bubblewrap },
            SpawnAction::TakePipes,
            SpawnAction::CreateCgroup { pid: PID },
            SpawnAction::WriteLimits { pid: PID },
            SpawnAction::StartWatchdog { pid: PID, timeout_seconds: 30, confined: true },
            SpawnAction::Finish { strategy: Strategy::Bubblewrap, pid: PID, confined: true },
        ]
    );
    assert!(steps.iter().all(|s| !s.warn_unconfined));
}

#[test]
fn forced_strategy_skips_detection() {
    let config = SandboxConfig::builder().strategy(Strategy::Firejail).build();
    let steps = run(&config, &[SpawnEvent::RuntimeLookedUp { found: true }]);
    assert_eq!(steps[1].action, SpawnAction::BuildCommand { strategy: Strategy::Firejail });
}

#[test]
fn no_timeout_means_no_watchdog() {
    let config = SandboxConfig::builder().strategy(Strategy::Unconfined).timeout_seconds(0).build();
    let mut events = through_pipes(None);
    events.extend([SpawnEvent::CgroupCreated { ok: true }, SpawnEvent::LimitsWritten { ok: true }]);
    let steps = run(&config, &events);
    assert_eq!(steps.last().unwrap().action, SpawnAction::Finish { strategy: Strategy::Unconfined, pid: PID, confined: true });
    assert!(!steps.iter().any(|s| matches!(s.action, SpawnAction::StartWatchdog { .. })));
}

#[test]
fn missing_cgroup_fails_closed_when_required() {
    let config = SandboxConfig::builder().strategy(Strategy::Unshare).require_hardware_limits(true).build();
    let mut events = through_pipes(None);
    events.push(SpawnEvent::CgroupCreated { ok: false });
    let last = *run(&config, &events).last().unwrap();
    assert_eq!(last.state, SpawnState::Failed);
    assert_eq!(last.action, SpawnAction::KillAndFail { failure: SpawnFailure::CgroupRequired });
}

#[test]
fn missing_cgroup_warns_otherwise() {
    let config = SandboxConfig::builder().strategy(Strategy::Unshare).timeout_seconds(5).build();
    let mut events = through_pipes(None);
    events.push(SpawnEvent::CgroupCreated { ok: false });
    let last = *run(&config, &events).last().unwrap();
    assert!(last.warn_unconfined);
    assert_eq!(last.action, SpawnAction::StartWatchdog { pid: PID, timeout_seconds: 5, confined: false });
}

#[test]
fn failures_after_start_kill_the_process() {
    let config = SandboxConfig::builder().strategy(Strategy::RlimitsOnly).build();
    let pipes = run(
        &config,
        &[
            SpawnEvent::RuntimeLookedUp { found: true },
            SpawnEvent::CommandBuilt { ok: true },
            SpawnEvent::ProcessStarted { pid: PID },
            SpawnEvent::PipesTaken { ok: false },
        ],
    );
    assert_eq!(pipes.last().unwrap().action, SpawnAction::KillAndFail { failure: SpawnFailure::PipeMissing });
    let mut events = through_pipes(None);
    events.extend([SpawnEvent::CgroupCreated { ok: true }, SpawnEvent::LimitsWritten { ok: false }]);
    let limits = run(&config, &events);
    assert_eq!(limits.last().unwrap().action, SpawnAction::KillAndFail { failure: SpawnFailure::LimitsFailed });
}

#[test]
fn failures_before_start_just_fail() {
    let config = SandboxConfig::builder().strategy(Strategy::Firejail).build();
    let r = run(&config, &[SpawnEvent::RuntimeLookedUp { found: false }]);
    assert_eq!(r[1].action, SpawnAction::Fail { failure: SpawnFailure::RuntimeNotFound });
    let r = run(&config, &[SpawnEvent::RuntimeLookedUp { found: true }, SpawnEvent::CommandBuilt { ok: false }]);
    assert_eq!(r[2].action, SpawnAction::Fail { failure: SpawnFailure::CommandRefused });
    let r = run(
        &config,
        &[SpawnEvent::RuntimeLookedUp { found: true }, SpawnEvent::CommandBuilt { ok: true }, SpawnEvent::ProgramNotFound],
    );
    assert_eq!(r[3].action, SpawnAction::Fail { failure: SpawnFailure::ProgramNotFound { strategy: Strategy::Firejail } });
    let r = run(
        &config,
        &[SpawnEvent::RuntimeLookedUp { found: true }, SpawnEvent::CommandBuilt { ok: true }, SpawnEvent::StartFailed],
    );
    assert_eq!(r[3].action, SpawnAction::Fail { failure: SpawnFailure::StartFailed { strategy: Strategy::Firejail } });
}

#[test]
fn outcomes_must_answer_the_action() {
    assert!(event_fits(SpawnState::FindingRuntime, SpawnEvent::RuntimeLookedUp { found: true }));
    assert!(!event_fits(SpawnState::FindingRuntime, SpawnEvent::WatchdogStarted));
    assert!(!event_fits(SpawnState::Failed, SpawnEvent::WatchdogStarted));
    assert!(event_fits(SpawnState::Launching { strategy: Strategy::Unshare }, SpawnEvent::ProgramNotFound));
}
