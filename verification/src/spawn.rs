//! The course of a spawn, once its inputs are accepted: look up the runtime,
//! choose the strategy, build the command, start the process, take its
//! pipes, confine it in a cgroup, arm the watchdog.
//!
//! Each step is outside work; [`spawn_step`] decides, from the state reached
//! and the outcome of the last step, what comes next. Whatever fails once the
//! process runs kills it before the spawn fails, and the process runs without
//! hardware limits only when the configuration allows it, never silently.

use vstd::prelude::*;
use crate::config::SandboxConfig;
use crate::strategy::Strategy;

verus! {

/// Where a spawn stands.
#[derive(Clone, Copy, Debug, PartialEq, Eq, Structural)]
pub enum SpawnState {
    /// The runtime is being looked up.
    FindingRuntime,
    /// The best available strategy is being detected.
    ChoosingStrategy,
    /// The command for `strategy` is being built.
    Building { strategy: Strategy },
    /// The process is being started.
    Launching { strategy: Strategy },
    /// The process `pid` runs; its stdin and stdout are being taken.
    TakingPipes { strategy: Strategy, pid: u32 },
    /// The cgroup of `pid` is being created.
    CreatingCgroup { strategy: Strategy, pid: u32 },
    /// The limits of `pid` are being written into its cgroup.
    Confining { strategy: Strategy, pid: u32 },
    /// The watchdog of `pid` is being started.
    ArmingWatchdog { strategy: Strategy, pid: u32, confined: bool },
    /// The spawn succeeded; `confined` tells whether the cgroup limits apply.
    Spawned { strategy: Strategy, pid: u32, confined: bool },
    /// The spawn failed.
    Failed,
}

/// The outcome of the last step.
#[derive(Clone, Copy, Debug, PartialEq, Eq, Structural)]
pub enum SpawnEvent {
    /// The runtime was looked up; whether an executable was found.
    RuntimeLookedUp { found: bool },
    /// The best available strategy was detected.
    StrategyDetected { strategy: Strategy },
    /// The command was built, or refused.
    CommandBuilt { ok: bool },
    /// The process started as `pid`.
    ProcessStarted { pid: u32 },
    /// The program to start (the wrapper, or the runtime) does not exist.
    ProgramNotFound,
    /// The process could not be started for another reason.
    StartFailed,
    /// The pipes were taken, or one was missing.
    PipesTaken { ok: bool },
    /// The cgroup was created, or could not be.
    CgroupCreated { ok: bool },
    /// The limits were written, or a write failed.
    LimitsWritten { ok: bool },
    /// The watchdog was started.
    WatchdogStarted,
}

/// Why a spawn failed.
#[derive(Clone, Copy, Debug, PartialEq, Eq, Structural)]
pub enum SpawnFailure {
    /// No executable runtime was found.
    RuntimeNotFound,
    /// The command could not be built.
    CommandRefused,
    /// The program of `strategy` does not exist.
    ProgramNotFound { strategy: Strategy },
    /// The process of `strategy` could not be started.
    StartFailed { strategy: Strategy },
    /// A pipe of the process was missing.
    PipeMissing,
    /// Hardware limits are required and no cgroup could be created.
    CgroupRequired,
    /// A limit could not be written into the cgroup.
    LimitsFailed,
}

/// The next piece of outside work.
#[derive(Clone, Copy, Debug, PartialEq, Eq, Structural)]
pub enum SpawnAction {
    /// Look up the runtime.
    LookUpRuntime,
    /// Detect the best available strategy.
    DetectStrategy,
    /// Build the command for `strategy`.
    BuildCommand { strategy: Strategy },
    /// Start the process.
    Launch { strategy: Strategy },
    /// Take the stdin and stdout of the process.
    TakePipes,
    /// Create the cgroup of `pid`.
    CreateCgroup { pid: u32 },
    /// Write the limits of `pid` into its cgroup.
    WriteLimits { pid: u32 },
    /// Start a watchdog that kills `pid` after `timeout_seconds`.
    StartWatchdog { pid: u32, timeout_seconds: u64, confined: bool },
    /// The spawn is done.
    Finish { strategy: Strategy, pid: u32, confined: bool },
    /// Fail; no process exists.
    Fail { failure: SpawnFailure },
    /// Kill and reap the process, then fail.
    KillAndFail { failure: SpawnFailure },
}

/// The result of one decision: the new state, the next action, and whether a
/// warning that the process runs without hardware limits is due.
#[derive(Clone, Copy, Debug, PartialEq, Eq, Structural)]
pub struct SpawnStep {
    /// The state reached.
    pub state: SpawnState,
    /// What to do next.
    pub action: SpawnAction,
    /// Warn that no cgroup limits apply.
    pub warn_unconfined: bool,
}

/// The state of a spawn whose inputs were accepted, and its first action.
pub open spec fn spawn_start() -> SpawnStep {
    SpawnStep { state: SpawnState::FindingRuntime, action: SpawnAction::LookUpRuntime, warn_unconfined: false }
}

/// The first step of a spawn whose inputs were accepted.
pub fn start_spawn() -> (r: SpawnStep)
    ensures
        r == spawn_start(),
{
    SpawnStep { state: SpawnState::FindingRuntime, action: SpawnAction::LookUpRuntime, warn_unconfined: false }
}

/// Whether `event` is an outcome of the action that `state` waits for.
pub open spec fn spec_event_fits(state: SpawnState, event: SpawnEvent) -> bool {
    match state {
        SpawnState::FindingRuntime => event is RuntimeLookedUp,
        SpawnState::ChoosingStrategy => event is StrategyDetected,
        SpawnState::Building { .. } => event is CommandBuilt,
        SpawnState::Launching { .. } => event is ProcessStarted || event is ProgramNotFound || event is StartFailed,
        SpawnState::TakingPipes { .. } => event is PipesTaken,
        SpawnState::CreatingCgroup { .. } => event is CgroupCreated,
        SpawnState::Confining { .. } => event is LimitsWritten,
        SpawnState::ArmingWatchdog { .. } => event is WatchdogStarted,
        SpawnState::Spawned { .. } | SpawnState::Failed => false,
    }
}

/// Whether `event` is an outcome of the action that `state` waits for.
pub fn event_fits(state: SpawnState, event: SpawnEvent) -> (r: bool)
    ensures
        r == spec_event_fits(state, event),
{
    match state {
        SpawnState::FindingRuntime => matches!(event, SpawnEvent::RuntimeLookedUp { .. }),
        SpawnState::ChoosingStrategy => matches!(event, SpawnEvent::StrategyDetected { .. }),
        SpawnState::Building { .. } => matches!(event, SpawnEvent::CommandBuilt { .. }),
        SpawnState::Launching { .. } => matches!(
            event,
            SpawnEvent::ProcessStarted { .. } | SpawnEvent::ProgramNotFound | SpawnEvent::StartFailed
        ),
        SpawnState::TakingPipes { .. } => matches!(event, SpawnEvent::PipesTaken { .. }),
        SpawnState::CreatingCgroup { .. } => matches!(event, SpawnEvent::CgroupCreated { .. }),
        SpawnState::Confining { .. } => matches!(event, SpawnEvent::LimitsWritten { .. }),
        SpawnState::ArmingWatchdog { .. } => matches!(event, SpawnEvent::WatchdogStarted),
        SpawnState::Spawned { .. } | SpawnState::Failed => false,
    }
}

/// After the cgroup step: start the watchdog when there is a timeout, or
/// finish.
pub open spec fn spec_arm(config: SandboxConfig, strategy: Strategy, pid: u32, confined: bool, warn: bool) -> SpawnStep {
    if config.timeout_seconds > 0 {
        SpawnStep {
            state: SpawnState::ArmingWatchdog { strategy, pid, confined },
            action: SpawnAction::StartWatchdog { pid, timeout_seconds: config.timeout_seconds, confined },
            warn_unconfined: warn,
        }
    } else {
        SpawnStep {
            state: SpawnState::Spawned { strategy, pid, confined },
            action: SpawnAction::Finish { strategy, pid, confined },
            warn_unconfined: warn,
        }
    }
}

/// A failed step.
pub open spec fn spec_failed(failure: SpawnFailure, kill: bool) -> SpawnStep {
    SpawnStep {
        state: SpawnState::Failed,
        action: if kill {
            SpawnAction::KillAndFail { failure }
        } else {
            SpawnAction::Fail { failure }
        },
        warn_unconfined: false,
    }
}

/// A step that goes on to `state` with `action`.
pub open spec fn spec_go(state: SpawnState, action: SpawnAction) -> SpawnStep {
    SpawnStep { state, action, warn_unconfined: false }
}

/// The decision of a spawn in `state` on `event`, under `config`.
pub open spec fn spec_spawn_step(config: SandboxConfig, state: SpawnState, event: SpawnEvent) -> SpawnStep {
    match (state, event) {
        (SpawnState::FindingRuntime, SpawnEvent::RuntimeLookedUp { found }) => if !found {
            spec_failed(SpawnFailure::RuntimeNotFound, false)
        } else {
            match config.force_strategy {
                Some(s) => spec_go(SpawnState::Building { strategy: s }, SpawnAction::BuildCommand { strategy: s }),
                None => spec_go(SpawnState::ChoosingStrategy, SpawnAction::DetectStrategy),
            }
        },
        (SpawnState::ChoosingStrategy, SpawnEvent::StrategyDetected { strategy }) => spec_go(
            SpawnState::Building { strategy },
            SpawnAction::BuildCommand { strategy },
        ),
        (SpawnState::Building { strategy }, SpawnEvent::CommandBuilt { ok }) => if ok {
            spec_go(SpawnState::Launching { strategy }, SpawnAction::Launch { strategy })
        } else {
            spec_failed(SpawnFailure::CommandRefused, false)
        },
        (SpawnState::Launching { strategy }, SpawnEvent::ProcessStarted { pid }) => spec_go(
            SpawnState::TakingPipes { strategy, pid },
            SpawnAction::TakePipes,
        ),
        (SpawnState::Launching { strategy }, SpawnEvent::ProgramNotFound) => spec_failed(
            SpawnFailure::ProgramNotFound { strategy },
            false,
        ),
        (SpawnState::Launching { strategy }, SpawnEvent::StartFailed) => spec_failed(
            SpawnFailure::StartFailed { strategy },
            false,
        ),
        (SpawnState::TakingPipes { strategy, pid }, SpawnEvent::PipesTaken { ok }) => if ok {
            spec_go(SpawnState::CreatingCgroup { strategy, pid }, SpawnAction::CreateCgroup { pid })
        } else {
            spec_failed(SpawnFailure::PipeMissing, true)
        },
        (SpawnState::CreatingCgroup { strategy, pid }, SpawnEvent::CgroupCreated { ok }) => if ok {
            spec_go(SpawnState::Confining { strategy, pid }, SpawnAction::WriteLimits { pid })
        } else if config.require_hardware_limits {
            spec_failed(SpawnFailure::CgroupRequired, true)
        } else {
            spec_arm(config, strategy, pid, false, true)
        },
        (SpawnState::Confining { strategy, pid }, SpawnEvent::LimitsWritten { ok }) => if ok {
            spec_arm(config, strategy, pid, true, false)
        } else {
            spec_failed(SpawnFailure::LimitsFailed, true)
        },
        (SpawnState::ArmingWatchdog { strategy, pid, confined }, SpawnEvent::WatchdogStarted) => spec_go(
            SpawnState::Spawned { strategy, pid, confined },
            SpawnAction::Finish { strategy, pid, confined },
        ),
        _ => spec_go(state, SpawnAction::Fail { failure: SpawnFailure::CommandRefused }),
    }
}

fn arm(config: &SandboxConfig, strategy: Strategy, pid: u32, confined: bool, warn: bool) -> (r: SpawnStep)
    ensures
        r == spec_arm(*config, strategy, pid, confined, warn),
{
    if config.timeout_seconds > 0 {
        SpawnStep {
            state: SpawnState::ArmingWatchdog { strategy, pid, confined },
            action: SpawnAction::StartWatchdog { pid, timeout_seconds: config.timeout_seconds, confined },
            warn_unconfined: warn,
        }
    } else {
        SpawnStep {
            state: SpawnState::Spawned { strategy, pid, confined },
            action: SpawnAction::Finish { strategy, pid, confined },
            warn_unconfined: warn,
        }
    }
}

fn failed(failure: SpawnFailure, kill: bool) -> (r: SpawnStep)
    ensures
        r == spec_failed(failure, kill),
{
    SpawnStep {
        state: SpawnState::Failed,
        action: if kill {
            SpawnAction::KillAndFail { failure }
        } else {
            SpawnAction::Fail { failure }
        },
        warn_unconfined: false,
    }
}

fn go(state: SpawnState, action: SpawnAction) -> (r: SpawnStep)
    ensures
        r == spec_go(state, action),
{
    SpawnStep { state, action, warn_unconfined: false }
}

/// Decides what a spawn does next, in `state`, on the outcome `event` of the
/// action it waited for.
pub fn spawn_step(config: &SandboxConfig, state: SpawnState, event: SpawnEvent) -> (r: SpawnStep)
    requires
        spec_event_fits(state, event),
    ensures
        r == spec_spawn_step(*config, state, event),
{
    match state {
        SpawnState::FindingRuntime => match event {
            SpawnEvent::RuntimeLookedUp { found } => if !found {
                failed(SpawnFailure::RuntimeNotFound, false)
            } else {
                match config.force_strategy {
                    Some(s) => go(SpawnState::Building { strategy: s }, SpawnAction::BuildCommand { strategy: s }),
                    None => go(SpawnState::ChoosingStrategy, SpawnAction::DetectStrategy),
                }
            },
            _ => go(state, SpawnAction::Fail { failure: SpawnFailure::CommandRefused }),
        },
        SpawnState::ChoosingStrategy => match event {
            SpawnEvent::StrategyDetected { strategy } => go(
                SpawnState::Building { strategy },
                SpawnAction::BuildCommand { strategy },
            ),
            _ => go(state, SpawnAction::Fail { failure: SpawnFailure::CommandRefused }),
        },
        SpawnState::Building { strategy } => match event {
            SpawnEvent::CommandBuilt { ok } => if ok {
                go(SpawnState::Launching { strategy }, SpawnAction::Launch { strategy })
            } else {
                failed(SpawnFailure::CommandRefused, false)
            },
            _ => go(state, SpawnAction::Fail { failure: SpawnFailure::CommandRefused }),
        },
        SpawnState::Launching { strategy } => match event {
            SpawnEvent::ProcessStarted { pid } => go(SpawnState::TakingPipes { strategy, pid }, SpawnAction::TakePipes),
            SpawnEvent::ProgramNotFound => failed(SpawnFailure::ProgramNotFound { strategy }, false),
            SpawnEvent::StartFailed => failed(SpawnFailure::StartFailed { strategy }, false),
            _ => go(state, SpawnAction::Fail { failure: SpawnFailure::CommandRefused }),
        },
        SpawnState::TakingPipes { strategy, pid } => match event {
            SpawnEvent::PipesTaken { ok } => if ok {
                go(SpawnState::CreatingCgroup { strategy, pid }, SpawnAction::CreateCgroup { pid })
            } else {
                failed(SpawnFailure::PipeMissing, true)
            },
            _ => go(state, SpawnAction::Fail { failure: SpawnFailure::CommandRefused }),
        },
        SpawnState::CreatingCgroup { strategy, pid } => match event {
            SpawnEvent::CgroupCreated { ok } => if ok {
                go(SpawnState::Confining { strategy, pid }, SpawnAction::WriteLimits { pid })
            } else if config.require_hardware_limits {
                failed(SpawnFailure::CgroupRequired, true)
            } else {
                arm(config, strategy, pid, false, true)
            },
            _ => go(state, SpawnAction::Fail { failure: SpawnFailure::CommandRefused }),
        },
        SpawnState::Confining { strategy, pid } => match event {
            SpawnEvent::LimitsWritten { ok } => if ok {
                arm(config, strategy, pid, true, false)
            } else {
                failed(SpawnFailure::LimitsFailed, true)
            },
            _ => go(state, SpawnAction::Fail { failure: SpawnFailure::CommandRefused }),
        },
        SpawnState::ArmingWatchdog { strategy, pid, confined } => go(
            SpawnState::Spawned { strategy, pid, confined },
            SpawnAction::Finish { strategy, pid, confined },
        ),
        _ => go(state, SpawnAction::Fail { failure: SpawnFailure::CommandRefused }),
    }
}

/// The process of a state, once it was started.
pub open spec fn started_pid(state: SpawnState) -> Option<u32> {
    match state {
        SpawnState::TakingPipes { pid, .. } => Some(pid),
        SpawnState::CreatingCgroup { pid, .. } => Some(pid),
        SpawnState::Confining { pid, .. } => Some(pid),
        SpawnState::ArmingWatchdog { pid, .. } => Some(pid),
        SpawnState::Spawned { pid, .. } => Some(pid),
        _ => None,
    }
}

/// No process is left running by a failed spawn: a spawn fails only by
/// killing and reaping its process when one was started, and only by simply
/// failing when none was.
pub proof fn lemma_failure_kills_started_process(config: SandboxConfig, state: SpawnState, event: SpawnEvent)
    requires
        spec_event_fits(state, event),
    ensures
        ({
            let r = spec_spawn_step(config, state, event);
            &&& r.state == SpawnState::Failed <==> (r.action is Fail || r.action is KillAndFail)
            &&& r.state == SpawnState::Failed && started_pid(state) is Some ==> r.action is KillAndFail
            &&& r.state == SpawnState::Failed && started_pid(state) is None ==> r.action is Fail
        }),
{
}

/// A process never runs without its cgroup limits unless the configuration
/// allows it, and then not silently: every step that leaves the process
/// unconfined comes from a cgroup that could not be created, with hardware
/// limits not required, and raises the warning.
pub proof fn lemma_never_silently_unconfined(config: SandboxConfig, state: SpawnState, event: SpawnEvent)
    requires
        spec_event_fits(state, event),
        !(state is ArmingWatchdog),
    ensures
        ({
            let r = spec_spawn_step(config, state, event);
            (r.state matches SpawnState::ArmingWatchdog { confined, .. } && !confined) || (
            r.state matches SpawnState::Spawned { confined, .. } && !confined) ==> state is CreatingCgroup
                && event == (SpawnEvent::CgroupCreated { ok: false }) && !config.require_hardware_limits
                && r.warn_unconfined
        }),
        state is CreatingCgroup && event == (SpawnEvent::CgroupCreated { ok: false })
            && config.require_hardware_limits ==> spec_spawn_step(config, state, event).state
            == SpawnState::Failed,
{
}

/// The watchdog is armed exactly for a positive timeout: a spawn that
/// finishes without passing through the watchdog step has a timeout of 0, and
/// the watchdog that is started gets the configured timeout.
pub proof fn lemma_watchdog_iff_timeout(config: SandboxConfig, state: SpawnState, event: SpawnEvent)
    requires
        spec_event_fits(state, event),
    ensures
        ({
            let r = spec_spawn_step(config, state, event);
            &&& r.action matches SpawnAction::StartWatchdog { timeout_seconds, .. } ==> timeout_seconds
                == config.timeout_seconds && config.timeout_seconds > 0
            &&& r.state is Spawned && !(state is ArmingWatchdog) ==> config.timeout_seconds == 0
            &&& r.action is Finish <==> r.state is Spawned
        }),
{
}

/// The steps of a spawn run on the outcomes `events`, in order: the start,
/// then the step taken on each outcome.
pub open spec fn spawn_run(config: SandboxConfig, events: Seq<SpawnEvent>) -> Seq<SpawnStep>
    decreases events.len(),
{
    if events.len() == 0 {
        seq![spawn_start()]
    } else {
        let before = spawn_run(config, events.drop_last());
        before.push(spec_spawn_step(config, before.last().state, events.last()))
    }
}

/// Every outcome of the run answers the action that its state waited for.
pub open spec fn run_fits(config: SandboxConfig, events: Seq<SpawnEvent>) -> bool
    decreases events.len(),
{
    events.len() == 0 || (run_fits(config, events.drop_last()) && spec_event_fits(
        spawn_run(config, events.drop_last()).last().state,
        events.last(),
    ))
}

/// Once the process has started, every later state of the run still has
/// it, unless the run failed.
proof fn lemma_started_persists(config: SandboxConfig, events: Seq<SpawnEvent>)
    requires
        run_fits(config, events),
    ensures
        spawn_run(config, events).len() == events.len() + 1,
        forall|j: int, k: int|
            #![trigger started_pid(spawn_run(config, events)[j].state), spawn_run(config, events)[k]]
            0 <= j <= k < spawn_run(config, events).len() && started_pid(spawn_run(config, events)[j].state) is Some
                && spawn_run(config, events)[k].state != SpawnState::Failed ==> started_pid(
                spawn_run(config, events)[k].state,
            ) is Some,
    decreases events.len(),
{
    if events.len() > 0 {
        let prev = events.drop_last();
        lemma_started_persists(config, prev);
        let before = spawn_run(config, prev);
        let steps = spawn_run(config, events);
        let n = before.len() as int;
        assert(steps == before.push(spec_spawn_step(config, before.last().state, events.last())));
        assert forall|j: int, k: int|
            0 <= j <= k < steps.len() && started_pid(steps[j].state) is Some && steps[k].state
                != SpawnState::Failed implies started_pid(steps[k].state) is Some by {
            if k < n {
                assert(steps[j] == before[j]);
                assert(steps[k] == before[k]);
            } else if j < n {
                assert(steps[j] == before[j]);
                assert(before[n - 1] == before.last());
                assert(started_pid(before[n - 1].state) is Some);
            }
        }
    }
}

/// A failed spawn leaves no process behind: when a run of the spawn ends in
/// failure, it kills and reaps the process if any step had started one, and
/// it fails without killing anything only when none had.
pub proof fn lemma_failed_run_leaves_no_process(config: SandboxConfig, events: Seq<SpawnEvent>)
    requires
        run_fits(config, events),
        spawn_run(config, events).last().state == SpawnState::Failed,
    ensures
        ({
            let steps = spawn_run(config, events);
            &&& (exists|j: int| 0 <= j < steps.len() && #[trigger] started_pid(steps[j].state) is Some)
                ==> steps.last().action is KillAndFail
            &&& steps.last().action is Fail ==> forall|j: int|
                0 <= j < steps.len() ==> #[trigger] started_pid(steps[j].state) is None
        }),
{
    lemma_started_persists(config, events);
    let steps = spawn_run(config, events);
    let n = steps.len() as int;
    assert(events.len() > 0);
    let prev = events.drop_last();
    let before = spawn_run(config, prev);
    lemma_started_persists(config, prev);
    assert(steps == before.push(spec_spawn_step(config, before.last().state, events.last())));
    assert(before.last() == steps[n - 2]);
    lemma_failure_kills_started_process(config, before.last().state, events.last());
    if exists|j: int| 0 <= j < steps.len() && #[trigger] started_pid(steps[j].state) is Some {
        let j = choose|j: int| 0 <= j < steps.len() && #[trigger] started_pid(steps[j].state) is Some;
        assert(j != n - 1);
        assert(steps[n - 2].state != SpawnState::Failed);
        assert(started_pid(steps[n - 2].state) is Some);
    }
}

/// The outcomes on which a spawn gives up: no runtime was found, the command
/// was refused (a bad `env_set` entry, a mount host invalid for the
/// strategy), the program to start does not exist or cannot be started, a
/// pipe is missing, no cgroup could be made while hardware limits are
/// required, or a limit could not be written.
pub open spec fn is_failure_outcome(config: SandboxConfig, event: SpawnEvent) -> bool {
    ||| event == (SpawnEvent::RuntimeLookedUp { found: false })
    ||| event == (SpawnEvent::CommandBuilt { ok: false })
    ||| event == SpawnEvent::ProgramNotFound
    ||| event == SpawnEvent::StartFailed
    ||| event == (SpawnEvent::PipesTaken { ok: false })
    ||| event == (SpawnEvent::CgroupCreated { ok: false }) && config.require_hardware_limits
    ||| event == (SpawnEvent::LimitsWritten { ok: false })
}

/// A spawn that meets a failure outcome fails, and leaves no process
/// running: it kills and reaps the process if one had been started, and
/// otherwise fails without having started any.
pub proof fn lemma_failure_outcome_fails_cleanly(config: SandboxConfig, events: Seq<SpawnEvent>)
    requires
        run_fits(config, events),
        events.len() > 0,
        is_failure_outcome(config, events.last()),
    ensures
        ({
            let steps = spawn_run(config, events);
            &&& steps.last().state == SpawnState::Failed
            &&& (exists|j: int| 0 <= j < steps.len() && #[trigger] started_pid(steps[j].state) is Some)
                ==> steps.last().action is KillAndFail
            &&& steps.last().action is Fail ==> forall|j: int|
                0 <= j < steps.len() ==> #[trigger] started_pid(steps[j].state) is None
        }),
{
    let prev = events.drop_last();
    let before = spawn_run(config, prev);
    lemma_started_persists(config, prev);
    let steps = spawn_run(config, events);
    assert(steps == before.push(spec_spawn_step(config, before.last().state, events.last())));
    assert(steps.last() == spec_spawn_step(config, before.last().state, events.last()));
    lemma_failed_run_leaves_no_process(config, events);
}

/// What a state says of the cgroup limits, checked against the outcomes seen
/// so far: before the watchdog step no limit was written; from the watchdog
/// step on, the process counts as confined exactly when its limits were
/// written.
pub open spec fn confinement_matches(state: SpawnState, events: Seq<SpawnEvent>) -> bool {
    let written = events.contains(SpawnEvent::LimitsWritten { ok: true });
    match state {
        SpawnState::ArmingWatchdog { confined, .. } => confined == written,
        SpawnState::Spawned { confined, .. } => confined == written,
        SpawnState::Failed => true,
        _ => !written,
    }
}

proof fn lemma_confinement_matches(config: SandboxConfig, events: Seq<SpawnEvent>)
    requires
        run_fits(config, events),
    ensures
        confinement_matches(spawn_run(config, events).last().state, events),
    decreases events.len(),
{
    let lw = SpawnEvent::LimitsWritten { ok: true };
    if events.len() == 0 {
        assert(!events.contains(lw));
    } else {
        let prev = events.drop_last();
        let e = events.last();
        lemma_confinement_matches(config, prev);
        let before = spawn_run(config, prev);
        assert(spawn_run(config, events).last() == spec_spawn_step(config, before.last().state, e));
        assert(events.contains(lw) == (prev.contains(lw) || e == lw)) by {
            if prev.contains(lw) {
                let j = choose|j: int| 0 <= j < prev.len() && prev[j] == lw;
                assert(events[j] == prev[j]);
            }
            if e == lw {
                assert(events[events.len() - 1] == lw);
            }
            if events.contains(lw) {
                let j = choose|j: int| 0 <= j < events.len() && events[j] == lw;
                if j < prev.len() {
                    assert(prev[j] == events[j]);
                }
            }
        }
    }
}

/// A spawned process counts as confined by its cgroup limits exactly when
/// the limits were written: a run that ends spawned reports `confined` if
/// and only if one of its outcomes was a successful write of the limits.
/// A process whose cgroup could not be made, or was never confined, is
/// never reported as confined.
pub proof fn lemma_confined_iff_limits_written(config: SandboxConfig, events: Seq<SpawnEvent>)
    requires
        run_fits(config, events),
    ensures
        spawn_run(config, events).last().state matches SpawnState::Spawned { confined, .. } ==> (confined
            <==> events.contains(SpawnEvent::LimitsWritten { ok: true })),
        spawn_run(config, events).last().action matches SpawnAction::Finish { confined, .. } ==> (confined
            <==> events.contains(SpawnEvent::LimitsWritten { ok: true })),
{
    lemma_confinement_matches(config, events);
    if events.len() > 0 {
        let prev = events.drop_last();
        let before = spawn_run(config, prev);
        assert(spawn_run(config, events).last() == spec_spawn_step(config, before.last().state, events.last()));
        lemma_watchdog_iff_timeout(config, before.last().state, events.last());
    }
}

/// The strategy is the forced one when the configuration forces one, and
/// detection is asked for only when it does not.
pub proof fn lemma_forced_strategy_is_used(config: SandboxConfig)
    ensures
        ({
            let r = spec_spawn_step(config, SpawnState::FindingRuntime, SpawnEvent::RuntimeLookedUp { found: true });
            &&& config.force_strategy matches Some(s) ==> r.action == (SpawnAction::BuildCommand { strategy: s })
            &&& config.force_strategy is None ==> r.action == SpawnAction::DetectStrategy
        }),
{
}

} // verus!
