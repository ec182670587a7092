//! Decisions around a sandboxed process: where its runtime is looked up,
//! which inputs a spawn refuses, what its cgroup receives, which process a
//! kill reaches, what the watchdog does when it wakes, and which exit code a
//! finished process reports. The system calls themselves are made by the
//! caller, which hands the results in as plain values.

use vstd::prelude::*;
use crate::command::is_absolute;
use crate::config::{string_views, SandboxConfig};
use crate::strategy::{spec_strategy_name, Strategy};
use crate::text::{chars_of, concat, concat3, decimal, decimal_string, spec_split, split, string_of};

verus! {

// ---------------------------------------------------------------------------
// Looking up the runtime
// ---------------------------------------------------------------------------

/// `name` appended to the directory `dir` (`Path::join`): an absolute `name`
/// replaces `dir`; otherwise a `/` separates the two unless `dir` is empty or
/// already ends in one.
pub open spec fn spec_join(dir: Seq<char>, name: Seq<char>) -> Seq<char> {
    if is_absolute(name) {
        name
    } else if dir.len() == 0 || dir.last() == '/' {
        dir + name
    } else {
        dir + seq!['/'] + name
    }
}

/// `name` appended to the directory `dir` (`Path::join`).
pub fn join_path(dir: &str, name: &str) -> (r: String)
    ensures
        r@ == spec_join(dir@, name@),
{
    let n = chars_of(name);
    if n.len() > 0 && n[0] == '/' {
        return String::from_str(name);
    }
    let d = chars_of(dir);
    if d.len() == 0 || d[d.len() - 1] == '/' {
        return concat(dir, name);
    }
    let r = concat3(dir, "/", name);
    proof {
        reveal_strlit("/");
    }
    r
}

/// The view of an optional string.
pub open spec fn opt_view(s: Option<&str>) -> Option<Seq<char>> {
    match s {
        Some(t) => Some(t@),
        None => None,
    }
}

/// The paths at which the runtime `name` is looked for, in order: `name`
/// itself when it is absolute, then `name` joined to each directory of the
/// `PATH` value `path_var` (split at `:`, empty entries included).
pub open spec fn spec_which_candidates(name: Seq<char>, path_var: Option<Seq<char>>) -> Seq<Seq<char>> {
    let own: Seq<Seq<char>> = if is_absolute(name) {
        seq![name]
    } else {
        Seq::empty()
    };
    match path_var {
        None => own,
        Some(p) => own + spec_split(p, ':').map_values(|d: Seq<char>| spec_join(d, name)),
    }
}

/// The paths at which the runtime `name` is looked for, in order; the first
/// that is an executable regular file is the runtime.
pub fn which_candidates(name: &str, path_var: Option<&str>) -> (r: Vec<String>)
    ensures
        string_views(r@) == spec_which_candidates(name@, opt_view(path_var)),
{
    let mut out: Vec<String> = Vec::new();
    let n = chars_of(name);
    if n.len() > 0 && n[0] == '/' {
        out.push(String::from_str(name));
    }
    let ghost own = string_views(out@);
    assert(own == if is_absolute(name@) { seq![name@] } else { Seq::<Seq<char>>::empty() });
    match path_var {
        None => {
            out
        },
        Some(p) => {
            let pc = chars_of(p);
            let dirs = split(&pc, ':');
            let ghost pieces = spec_split(p@, ':');
            let mut i: usize = 0;
            while i < dirs.len()
                invariant
                    i <= dirs.len(),
                    dirs@.map_values(|l: Vec<char>| l@) == pieces,
                    string_views(out@) == own + pieces.take(i as int).map_values(
                        |d: Seq<char>| spec_join(d, name@),
                    ),
                decreases dirs.len() - i,
            {
                let d = string_of(&dirs[i]);
                assert(d@ == pieces[i as int]);
                let c = join_path(d.as_str(), name);
                let ghost before = string_views(out@);
                out.push(c);
                assert(string_views(out@) =~= before.push(c@));
                assert(pieces.take(i + 1).map_values(|d: Seq<char>| spec_join(d, name@)) =~= pieces.take(
                    i as int,
                ).map_values(|d: Seq<char>| spec_join(d, name@)).push(spec_join(pieces[i as int], name@)));
                i = i + 1;
            }
            assert(pieces.take(dirs.len() as int) == pieces);
            out
        },
    }
}

/// The candidate that is the runtime: the first whose entry in `executable`
/// (an executable regular file, as the file system says) is `true`.
pub fn first_executable(executable: &Vec<bool>) -> (r: Option<usize>)
    ensures
        match r {
            Some(i) => i < executable.len() && executable@[i as int] && forall|j: int|
                0 <= j < i ==> !executable@[j],
            None => forall|j: int| 0 <= j < executable.len() ==> !executable@[j],
        },
{
    let mut i: usize = 0;
    while i < executable.len()
        invariant
            i <= executable.len(),
            forall|j: int| 0 <= j < i ==> !executable@[j],
        decreases executable.len() - i,
    {
        if executable[i] {
            return Some(i);
        }
        i = i + 1;
    }
    None
}

/// The message of the error when no candidate path holds the runtime.
pub open spec fn spec_runtime_not_found(name: Seq<char>) -> Seq<char> {
    "runtime '"@ + name
        + "' not found in PATH. Fix: install the runtime or set `runtime_path` to an absolute executable path."@
}

/// The message of the error when no candidate path holds the runtime.
pub fn runtime_not_found_message(name: &str) -> (r: String)
    ensures
        r@ == spec_runtime_not_found(name@),
{
    concat3(
        "runtime '",
        name,
        "' not found in PATH. Fix: install the runtime or set `runtime_path` to an absolute executable path.",
    )
}

// ---------------------------------------------------------------------------
// The configuration of a quick spawn
// ---------------------------------------------------------------------------

/// The configuration with which `quick_spawn` runs `runtime`: the default
/// one, with that runtime and a timeout of 30 seconds.
pub fn quick_spawn_config(runtime: &str) -> (c: SandboxConfig)
    ensures
        c.runtime_path@ == runtime@,
        c.timeout_seconds == 30,
        exists|d: SandboxConfig|
            d.is_default() && c == (SandboxConfig { runtime_path: c.runtime_path, timeout_seconds: 30, ..d }),
{
    let b = SandboxConfig::builder();
    let ghost d = b@;
    let c = b.runtime(runtime).timeout_seconds(30).build();
    assert(c == (SandboxConfig { runtime_path: c.runtime_path, timeout_seconds: 30, ..d }));
    c
}

// ---------------------------------------------------------------------------
// Inputs of a spawn
// ---------------------------------------------------------------------------

/// Why a spawn refuses its inputs.
#[derive(Clone, Debug)]
pub enum SpawnInputError {
    /// The work directory is not an existing directory.
    WorkDirNotDirectory { path: String },
    /// The harness does not exist.
    HarnessMissing { path: String },
    /// The harness is not a regular file.
    HarnessNotFile { path: String },
    /// The bound on one received line is zero.
    ZeroRecvLimit,
}

/// The message of a [`SpawnInputError`].
pub open spec fn spec_spawn_input_message(e: SpawnInputError) -> Seq<char> {
    match e {
        SpawnInputError::WorkDirNotDirectory { path } => "work_dir must be an existing directory, got: "@ + path@
            + ". Fix: pass a real working directory for the sandbox process."@,
        SpawnInputError::HarnessMissing { path } => "harness_path must exist, got: "@ + path@
            + ". Fix: create the harness file first or point procjail at an existing script."@,
        SpawnInputError::HarnessNotFile { path } => "harness_path must be a file, got: "@ + path@
            + ". Fix: pass a regular file path instead of a directory or device."@,
        SpawnInputError::ZeroRecvLimit => "max_recv_line_bytes must be greater than zero"@,
    }
}

impl SpawnInputError {
    /// The message of the error.
    pub fn message(&self) -> (r: String)
        ensures
            r@ == spec_spawn_input_message(*self),
    {
        match self {
            SpawnInputError::WorkDirNotDirectory { path } => concat3(
                "work_dir must be an existing directory, got: ",
                path.as_str(),
                ". Fix: pass a real working directory for the sandbox process.",
            ),
            SpawnInputError::HarnessMissing { path } => concat3(
                "harness_path must exist, got: ",
                path.as_str(),
                ". Fix: create the harness file first or point procjail at an existing script.",
            ),
            SpawnInputError::HarnessNotFile { path } => concat3(
                "harness_path must be a file, got: ",
                path.as_str(),
                ". Fix: pass a regular file path instead of a directory or device.",
            ),
            SpawnInputError::ZeroRecvLimit => String::from_str("max_recv_line_bytes must be greater than zero"),
        }
    }
}

/// Checks the inputs of a spawn, given what the file system says of them: the
/// work directory must be a directory, the harness must exist and be a
/// regular file, and the bound on a received line must be positive. The
/// first problem in that order is reported.
pub fn validate_spawn_inputs(
    harness_path: &str,
    work_dir: &str,
    work_dir_is_dir: bool,
    harness_exists: bool,
    harness_is_file: bool,
    max_recv_line_bytes: usize,
) -> (r: Result<(), SpawnInputError>)
    ensures
        !work_dir_is_dir ==> (r matches Err(SpawnInputError::WorkDirNotDirectory { path }) && path@ == work_dir@),
        work_dir_is_dir && !harness_exists ==> (r matches Err(SpawnInputError::HarnessMissing { path }) && path@
            == harness_path@),
        work_dir_is_dir && harness_exists && !harness_is_file ==> (r matches Err(
            SpawnInputError::HarnessNotFile { path },
        ) && path@ == harness_path@),
        work_dir_is_dir && harness_exists && harness_is_file && max_recv_line_bytes == 0 ==> (r matches Err(
            SpawnInputError::ZeroRecvLimit,
        )),
        work_dir_is_dir && harness_exists && harness_is_file && max_recv_line_bytes > 0 ==> r is Ok,
{
    if !work_dir_is_dir {
        return Err(SpawnInputError::WorkDirNotDirectory { path: String::from_str(work_dir) });
    }
    if !harness_exists {
        return Err(SpawnInputError::HarnessMissing { path: String::from_str(harness_path) });
    }
    if !harness_is_file {
        return Err(SpawnInputError::HarnessNotFile { path: String::from_str(harness_path) });
    }
    if max_recv_line_bytes == 0 {
        return Err(SpawnInputError::ZeroRecvLimit);
    }
    Ok(())
}

/// How to fix a spawn whose program was not found, for each strategy.
pub open spec fn spec_missing_program_fix(strategy: Strategy) -> Seq<char> {
    match strategy {
        Strategy::Unshare => "unshare not available \u{2014} install util-linux or use Strategy::Bubblewrap instead"@,
        Strategy::Bubblewrap => "bwrap not available \u{2014} install bubblewrap"@,
        Strategy::Firejail => "firejail not available \u{2014} install firejail"@,
        _ => "runtime executable not found"@,
    }
}

fn missing_program_fix(strategy: Strategy) -> (r: &'static str)
    ensures
        r@ == spec_missing_program_fix(strategy),
{
    match strategy {
        Strategy::Unshare => "unshare not available \u{2014} install util-linux or use Strategy::Bubblewrap instead",
        Strategy::Bubblewrap => "bwrap not available \u{2014} install bubblewrap",
        Strategy::Firejail => "firejail not available \u{2014} install firejail",
        _ => "runtime executable not found",
    }
}

/// The message of a spawn whose program (the containment wrapper, or the
/// runtime) was not found.
pub open spec fn spec_program_not_found(
    strategy: Strategy,
    runtime: Seq<char>,
    harness: Seq<char>,
    work_dir: Seq<char>,
) -> Seq<char> {
    "could not start "@ + spec_strategy_name(strategy) + " sandbox. Fix: "@ + spec_missing_program_fix(strategy)
        + ". Runtime looked up as '"@ + runtime + "', harness '"@ + harness + "', work dir '"@ + work_dir + "'."@
}

/// The message of a spawn whose program (the containment wrapper, or the
/// runtime) was not found.
pub fn program_not_found_message(strategy: Strategy, runtime: &str, harness: &str, work_dir: &str) -> (r: String)
    ensures
        r@ == spec_program_not_found(strategy, runtime@, harness@, work_dir@),
{
    let mut s = concat3("could not start ", strategy.name(), " sandbox. Fix: ");
    s.append(missing_program_fix(strategy));
    s.append(". Runtime looked up as '");
    s.append(runtime);
    s.append("', harness '");
    s.append(harness);
    s.append("', work dir '");
    s.append(work_dir);
    s.append("'.");
    s
}

/// The context given to any other failure of a spawn.
pub fn spawn_failure_context(strategy: Strategy) -> (r: String)
    ensures
        r@ == "spawning sandboxed "@ + spec_strategy_name(strategy) + " process"@,
{
    concat3("spawning sandboxed ", strategy.name(), " process")
}

// ---------------------------------------------------------------------------
// The cgroup of a sandboxed process
// ---------------------------------------------------------------------------

/// The name of the cgroup of the process `pid`.
pub open spec fn spec_cgroup_name(pid: u32) -> Seq<char> {
    "procjail-"@ + decimal(pid as nat)
}

/// The name of the cgroup of the process `pid`.
pub fn cgroup_name(pid: u32) -> (r: String)
    ensures
        r@ == spec_cgroup_name(pid),
{
    let d = decimal_string(pid as u64);
    concat("procjail-", d.as_str())
}

/// Why a cgroup cannot be created.
#[derive(Clone, Copy, Debug, PartialEq, Eq, Structural)]
pub enum CgroupSetupError {
    /// No cgroup file system is mounted at `/sys/fs/cgroup`.
    NotMounted,
    /// The hierarchy there is cgroup v1 (no `cgroup.controllers`).
    VersionOneOnly,
}

/// The message of a [`CgroupSetupError`].
pub open spec fn spec_cgroup_setup_message(e: CgroupSetupError) -> Seq<char> {
    match e {
        CgroupSetupError::NotMounted => "cgroups v2 not mounted at /sys/fs/cgroup. Fix: ensure cgroup2 is mounted or use firejail/bwrap for resource containment."@,
        CgroupSetupError::VersionOneOnly => "cgroups v1 detected; procjail requires v2. Fix: migrate to cgroups v2 or use firejail/bwrap for resource containment."@,
    }
}

impl CgroupSetupError {
    /// The message of the error.
    pub fn message(&self) -> (r: &'static str)
        ensures
            r@ == spec_cgroup_setup_message(*self),
    {
        match self {
            CgroupSetupError::NotMounted => "cgroups v2 not mounted at /sys/fs/cgroup. Fix: ensure cgroup2 is mounted or use firejail/bwrap for resource containment.",
            CgroupSetupError::VersionOneOnly => "cgroups v1 detected; procjail requires v2. Fix: migrate to cgroups v2 or use firejail/bwrap for resource containment.",
        }
    }
}

/// A write of `content` into the control file at the path `file`.
#[derive(Clone, Debug)]
pub struct CgroupWrite {
    /// The path of the control file.
    pub file: String,
    /// What is written into it.
    pub content: String,
}

/// The path and content of each write.
pub open spec fn write_views(v: Seq<CgroupWrite>) -> Seq<(Seq<char>, Seq<char>)> {
    v.map_values(|w: CgroupWrite| (w.file@, w.content@))
}

/// The content of `cpu.max` for a quota and a period, in microseconds.
pub open spec fn spec_cpu_max(quota: u64, period: u64) -> Seq<char> {
    decimal(quota as nat) + seq![' '] + decimal(period as nat)
}

/// A cgroup v2 slice that holds a sandboxed process and its descendants:
/// the hardware limits that the process cannot escape.
#[derive(Clone, Debug)]
pub struct CgroupV2 {
    /// The directory of the cgroup.
    pub path: String,
}

fn control_write(dir: &str, file: &str, content: String) -> (w: CgroupWrite)
    ensures
        w.file@ == spec_join(dir@, file@),
        w.content@ == content@,
{
    CgroupWrite { file: join_path(dir, file), content }
}

impl CgroupV2 {
    /// The cgroup `name` under the `procjail` slice of `/sys/fs/cgroup`,
    /// given whether that directory exists and whether it holds
    /// `cgroup.controllers` (it does only for cgroup v2). The caller creates
    /// the cgroup's directory.
    pub fn new(name: &str, base_exists: bool, controllers_exist: bool) -> (r: Result<CgroupV2, CgroupSetupError>)
        ensures
            !base_exists ==> (r matches Err(e) && e == CgroupSetupError::NotMounted),
            base_exists && !controllers_exist ==> (r matches Err(e) && e == CgroupSetupError::VersionOneOnly),
            base_exists && controllers_exist ==> (r matches Ok(c) && c.path@ == spec_join(
                "/sys/fs/cgroup/procjail"@,
                name@,
            )),
    {
        if !base_exists {
            Err(CgroupSetupError::NotMounted)
        } else if !controllers_exist {
            Err(CgroupSetupError::VersionOneOnly)
        } else {
            Ok(CgroupV2 { path: join_path("/sys/fs/cgroup/procjail", name) })
        }
    }

    /// The writes of a hard memory maximum of `bytes`, then of no swap at all,
    /// so that the memory limit cannot be escaped into swap.
    pub fn set_memory_limit(&self, bytes: u64) -> (r: Vec<CgroupWrite>)
        ensures
            write_views(r@) == seq![
                (spec_join(self.path@, "memory.max"@), decimal(bytes as nat)),
                (spec_join(self.path@, "memory.swap.max"@), seq!['0']),
            ],
    {
        proof {
            reveal_strlit("0");
        }
        let w0 = control_write(self.path.as_str(), "memory.max", decimal_string(bytes));
        let w1 = control_write(self.path.as_str(), "memory.swap.max", String::from_str("0"));
        assert(w1.content@ == seq!['0']);
        let mut r: Vec<CgroupWrite> = Vec::new();
        r.push(w0);
        r.push(w1);
        assert(write_views(r@) =~= seq![
            (spec_join(self.path@, "memory.max"@), decimal(bytes as nat)),
            (spec_join(self.path@, "memory.swap.max"@), seq!['0']),
        ]);
        r
    }

    /// The write of a CPU quota of `quota` microseconds in each `period`.
    pub fn set_cpu_limit(&self, quota: u64, period: u64) -> (w: CgroupWrite)
        ensures
            w.file@ == spec_join(self.path@, "cpu.max"@),
            w.content@ == spec_cpu_max(quota, period),
    {
        proof {
            reveal_strlit(" ");
        }
        let mut c = decimal_string(quota);
        c.append(" ");
        let p = decimal_string(period);
        c.append(p.as_str());
        control_write(self.path.as_str(), "cpu.max", c)
    }

    /// The write of a hard limit of `max` processes and threads.
    pub fn set_pids_limit(&self, max: u64) -> (w: CgroupWrite)
        ensures
            w.file@ == spec_join(self.path@, "pids.max"@),
            w.content@ == decimal(max as nat),
    {
        control_write(self.path.as_str(), "pids.max", decimal_string(max))
    }

    /// The write that moves the process `pid` into the cgroup.
    pub fn attach_pid(&self, pid: u32) -> (w: CgroupWrite)
        ensures
            w.file@ == spec_join(self.path@, "cgroup.procs"@),
            w.content@ == decimal(pid as nat),
    {
        control_write(self.path.as_str(), "cgroup.procs", decimal_string(pid as u64))
    }

    /// The write that kills every process of the cgroup and its descendants.
    pub fn kill_all(&self) -> (w: CgroupWrite)
        ensures
            w.file@ == spec_join(self.path@, "cgroup.kill"@),
            w.content@ == seq!['1'],
    {
        proof {
            reveal_strlit("1");
        }
        control_write(self.path.as_str(), "cgroup.kill", String::from_str("1"))
    }

    /// The path of the file that reports the peak memory of the cgroup.
    pub fn memory_peak_file(&self) -> (r: String)
        ensures
            r@ == spec_join(self.path@, "memory.peak"@),
    {
        join_path(self.path.as_str(), "memory.peak")
    }
}

/// The writes that confine the process `pid` in the cgroup at `dir`, in
/// order: the memory limit, no swap, one full CPU (a quota of 100000 in each
/// period of 100000 microseconds), the limit on processes, and last the
/// process itself.
pub open spec fn spec_limit_writes(dir: Seq<char>, max_memory_bytes: u64, max_processes: u64, pid: u32) -> Seq<
    (Seq<char>, Seq<char>),
> {
    seq![
        (spec_join(dir, "memory.max"@), decimal(max_memory_bytes as nat)),
        (spec_join(dir, "memory.swap.max"@), seq!['0']),
        (spec_join(dir, "cpu.max"@), spec_cpu_max(100000, 100000)),
        (spec_join(dir, "pids.max"@), decimal(max_processes as nat)),
        (spec_join(dir, "cgroup.procs"@), decimal(pid as nat)),
    ]
}

/// The writes that confine the process `pid` in `cgroup`, in the order in
/// which a spawn makes them; the first that fails ends the spawn and kills
/// the process.
pub fn sandbox_limit_writes(cgroup: &CgroupV2, max_memory_bytes: u64, max_processes: u64, pid: u32) -> (r: Vec<
    CgroupWrite,
>)
    ensures
        write_views(r@) == spec_limit_writes(cgroup.path@, max_memory_bytes, max_processes, pid),
{
    let mut r = cgroup.set_memory_limit(max_memory_bytes);
    let ghost mem = write_views(r@);
    let cpu = cgroup.set_cpu_limit(100000, 100000);
    let pids = cgroup.set_pids_limit(max_processes);
    let attach = cgroup.attach_pid(pid);
    r.push(cpu);
    r.push(pids);
    r.push(attach);
    assert(write_views(r@) =~= mem + seq![(cpu.file@, cpu.content@), (pids.file@, pids.content@), (attach.file@, attach.content@)]);
    assert(write_views(r@) =~= spec_limit_writes(cgroup.path@, max_memory_bytes, max_processes, pid));
    r
}

/// What a spawn does when the cgroup cannot be created.
#[derive(Clone, Debug)]
pub enum CgroupFallback {
    /// Kill the process and fail with this message.
    FailClosed { message: String },
    /// Keep the process, without hardware limits, and print this warning.
    RunWithoutLimits { warning: String },
}

/// What a spawn does when the cgroup cannot be created for `reason`: it fails
/// closed exactly when the configuration requires hardware limits, and never
/// goes on without saying so.
pub fn on_cgroup_unavailable(require_hardware_limits: bool, reason: &str) -> (r: CgroupFallback)
    ensures
        require_hardware_limits <==> r is FailClosed,
        r matches CgroupFallback::FailClosed { message } ==> message@
            == "cgroup v2 hardware limits required but unavailable: "@ + reason@,
        r matches CgroupFallback::RunWithoutLimits { warning } ==> warning@ == "[procjail] WARNING: cgroup v2 unavailable ("@
            + reason@
            + "); process runs WITHOUT memory/CPU/pids hardware limits. Set require_hardware_limits(true) to fail closed."@,
{
    if require_hardware_limits {
        CgroupFallback::FailClosed { message: concat("cgroup v2 hardware limits required but unavailable: ", reason) }
    } else {
        CgroupFallback::RunWithoutLimits {
            warning: concat3(
                "[procjail] WARNING: cgroup v2 unavailable (",
                reason,
                "); process runs WITHOUT memory/CPU/pids hardware limits. Set require_hardware_limits(true) to fail closed.",
            ),
        }
    }
}

/// The message of the error when a write of the cgroup's limits failed.
pub fn cgroup_limits_failed_message(reason: &str) -> (r: String)
    ensures
        r@ == "failed to apply cgroup limits: "@ + reason@,
{
    concat("failed to apply cgroup limits: ", reason)
}

// ---------------------------------------------------------------------------
// Killing
// ---------------------------------------------------------------------------

/// The target of the `SIGKILL` that kills the process `pid` with all of its
/// descendants: its process group, `-pid`. No target for pid 0, nor for a pid
/// that does not fit in `pid_t`; so a target always names a process group,
/// never the caller's own group (0), and it is -1, which `kill` reads as
/// every process the caller may signal, only for pid 1.
pub fn kill_target(pid: u32) -> (r: Option<i32>)
    ensures
        pid == 0 || pid > i32::MAX ==> r is None,
        0 < pid <= i32::MAX ==> (r matches Some(g) && g == -(pid as int)),
        r matches Some(g) ==> g < 0,
        r == Some(-1i32) <==> pid == 1,
{
    if pid == 0 || pid > 2147483647 {
        None
    } else {
        let p: i32 = pid as i32;
        Some(-p)
    }
}

/// The pid for which a process file descriptor is opened: none for pid 0,
/// nor for a pid that does not fit in `pid_t`.
pub fn pidfd_target(pid: u32) -> (r: Option<i32>)
    ensures
        pid == 0 || pid > i32::MAX ==> r is None,
        0 < pid <= i32::MAX ==> (r matches Some(p) && p == pid),
{
    if pid == 0 || pid > 2147483647 {
        None
    } else {
        Some(pid as i32)
    }
}

/// What follows a `SIGKILL` sent through a process file descriptor.
#[derive(Clone, Copy, Debug, PartialEq, Eq, Structural)]
pub enum AfterPidfdSignal {
    /// The signal was delivered.
    Delivered,
    /// The process no longer exists.
    ProcessGone,
    /// The call failed otherwise (blocked or not implemented): kill the
    /// process group by pid instead.
    FallBackToGroupKill,
}

/// What follows a `SIGKILL` sent through a process file descriptor, given
/// whether the call succeeded and, if not, whether it failed with `ESRCH`.
pub fn after_pidfd_signal(sent: bool, no_such_process: bool) -> (r: AfterPidfdSignal)
    ensures
        sent ==> r == AfterPidfdSignal::Delivered,
        !sent && no_such_process ==> r == AfterPidfdSignal::ProcessGone,
        !sent && !no_such_process ==> r == AfterPidfdSignal::FallBackToGroupKill,
{
    if sent {
        AfterPidfdSignal::Delivered
    } else if no_such_process {
        AfterPidfdSignal::ProcessGone
    } else {
        AfterPidfdSignal::FallBackToGroupKill
    }
}

// ---------------------------------------------------------------------------
// The watchdog
// ---------------------------------------------------------------------------

/// Whether a watchdog is started for the process `pid` with a timeout of
/// `timeout_seconds` (0 means no timeout).
pub fn watchdog_needed(pid: u32, timeout_seconds: u64) -> (r: bool)
    ensures
        r == (pid != 0 && timeout_seconds != 0),
{
    pid != 0 && timeout_seconds != 0
}

/// One step of a watchdog whose time is up.
#[derive(Clone, Copy, Debug, PartialEq, Eq, Structural)]
pub enum WatchdogAction {
    /// Record that the process was killed for its timeout.
    MarkTimedOut,
    /// Kill every process of the cgroup.
    KillCgroup,
    /// Kill the process through its process file descriptor.
    KillViaPidfd,
    /// Kill the process group by pid.
    KillProcessGroup,
}

/// The steps of a watchdog when it wakes, in order.
pub open spec fn spec_watchdog_steps(cancelled: bool, has_cgroup: bool, has_pidfd: bool) -> Seq<WatchdogAction> {
    if cancelled {
        Seq::empty()
    } else {
        seq![WatchdogAction::MarkTimedOut] + (if has_cgroup {
            seq![WatchdogAction::KillCgroup]
        } else {
            Seq::empty()
        }) + seq![if has_pidfd { WatchdogAction::KillViaPidfd } else { WatchdogAction::KillProcessGroup }]
    }
}

/// The steps of a watchdog when it wakes: nothing when it was cancelled;
/// otherwise it records the timeout, kills the cgroup if there is one, and
/// kills the process through its descriptor if there is one, by pid if not.
pub fn watchdog_steps(cancelled: bool, has_cgroup: bool, has_pidfd: bool) -> (r: Vec<WatchdogAction>)
    ensures
        r@ == spec_watchdog_steps(cancelled, has_cgroup, has_pidfd),
{
    let mut v: Vec<WatchdogAction> = Vec::new();
    if cancelled {
        return v;
    }
    v.push(WatchdogAction::MarkTimedOut);
    if has_cgroup {
        v.push(WatchdogAction::KillCgroup);
    }
    if has_pidfd {
        v.push(WatchdogAction::KillViaPidfd);
    } else {
        v.push(WatchdogAction::KillProcessGroup);
    }
    assert(v@ =~= spec_watchdog_steps(cancelled, has_cgroup, has_pidfd));
    v
}

/// A watchdog that wakes without being cancelled always kills the process,
/// and one that was cancelled does nothing at all.
pub proof fn lemma_expired_watchdog_kills(has_cgroup: bool, has_pidfd: bool)
    ensures
        spec_watchdog_steps(true, has_cgroup, has_pidfd).len() == 0,
        spec_watchdog_steps(false, has_cgroup, has_pidfd).contains(WatchdogAction::MarkTimedOut),
        spec_watchdog_steps(false, has_cgroup, has_pidfd).contains(WatchdogAction::KillViaPidfd)
            || spec_watchdog_steps(false, has_cgroup, has_pidfd).contains(WatchdogAction::KillProcessGroup),
{
    let s = spec_watchdog_steps(false, has_cgroup, has_pidfd);
    assert(s[0] == WatchdogAction::MarkTimedOut);
    assert(s[s.len() - 1] == if has_pidfd { WatchdogAction::KillViaPidfd } else { WatchdogAction::KillProcessGroup });
}

/// What a watchdog whose time is up does, for every combination of what it
/// holds: it first records the timeout; it kills the cgroup exactly when it
/// has one, whether or not it has a process descriptor; it kills the process
/// through the descriptor exactly when it has one and by process group
/// exactly when it has none; and the process kill comes last, after the
/// cgroup kill.
pub proof fn lemma_expired_watchdog_steps(has_cgroup: bool, has_pidfd: bool)
    ensures
        ({
            let s = spec_watchdog_steps(false, has_cgroup, has_pidfd);
            &&& s.len() > 0 && s[0] == WatchdogAction::MarkTimedOut
            &&& s.contains(WatchdogAction::KillCgroup) <==> has_cgroup
            &&& s.contains(WatchdogAction::KillViaPidfd) <==> has_pidfd
            &&& s.contains(WatchdogAction::KillProcessGroup) <==> !has_pidfd
            &&& s.last() == WatchdogAction::KillViaPidfd || s.last() == WatchdogAction::KillProcessGroup
        }),
{
    let s = spec_watchdog_steps(false, has_cgroup, has_pidfd);
    let p = if has_pidfd { WatchdogAction::KillViaPidfd } else { WatchdogAction::KillProcessGroup };
    if has_cgroup {
        assert(s =~= seq![WatchdogAction::MarkTimedOut, WatchdogAction::KillCgroup, p]);
        assert(s[1] == WatchdogAction::KillCgroup);
    } else {
        assert(s =~= seq![WatchdogAction::MarkTimedOut, p]);
    }
    assert(s[s.len() - 1] == p);
}

// ---------------------------------------------------------------------------
// The exit code
// ---------------------------------------------------------------------------

/// The exit code of a finished process: its own code, or 128 plus the signal
/// that ended it, or -1 when neither is known.
pub open spec fn spec_exit_code(code: Option<i32>, signal: Option<i32>) -> int {
    match code {
        Some(c) => c as int,
        None => match signal {
            Some(s) => s + 128,
            None => -1,
        },
    }
}

/// The exit code of a finished process, from its exit status.
pub fn exit_code(code: Option<i32>, signal: Option<i32>) -> (r: i32)
    requires
        code is None ==> (signal matches Some(s) ==> s <= i32::MAX - 128),
    ensures
        r == spec_exit_code(code, signal),
{
    match code {
        Some(c) => c,
        None => match signal {
            Some(s) => s + 128,
            None => -1,
        },
    }
}

} // verus!
