//! The command that starts a sandboxed process: the containment wrapper and
//! its arguments for each strategy, the environment, and the isolation
//! applied in the child right before it executes the runtime.
//!
//! Everything that needs the host (canonical paths, the host environment,
//! the number of threads of the current user) is handed in as plain values.

use vstd::prelude::*;
use crate::config::{string_views, SandboxConfig};
use crate::env::{
    env_plan, is_env_plan_for, pair_views, reports_problem, spec_env_set_problem, validate_environment, EnvPlan,
};
use crate::error::{BuildCommandError, BuildError};
use crate::strategy::Strategy;
use crate::text::{concat, decimal, decimal_pad2, decimal_pad2_string, decimal_string};

verus! {

/// Whether a Unix path is absolute.
pub open spec fn is_absolute(p: Seq<char>) -> bool {
    p.len() > 0 && p[0] == '/'
}

/// Whether a Unix path is absolute (`Path::is_absolute`).
pub fn path_is_absolute(p: &str) -> (r: bool)
    ensures
        r == is_absolute(p@),
{
    let c = crate::text::chars_of(p);
    c.len() > 0 && c[0] == '/'
}

/// Appends a copy of `s` to `v`.
fn push_arg(v: &mut Vec<String>, s: &str)
    ensures
        string_views(final(v)@) == string_views(old(v)@).push(s@),
{
    let ghost before = v@;
    v.push(String::from_str(s));
    assert(string_views(v@) =~= string_views(before).push(s@));
}

/// Appends an owned string to `v`.
fn push_owned(v: &mut Vec<String>, s: String)
    ensures
        string_views(final(v)@) == string_views(old(v)@).push(s@),
{
    let ghost before = v@;
    v.push(s);
    assert(string_views(v@) =~= string_views(before).push(s@));
}

/// Appends copies of the strings of `w` to `v`.
fn push_all(v: &mut Vec<String>, w: &Vec<String>)
    ensures
        string_views(final(v)@) == string_views(old(v)@) + string_views(w@),
{
    let ghost start = string_views(v@);
    let mut i: usize = 0;
    while i < w.len()
        invariant
            i <= w.len(),
            string_views(v@) == start + string_views(w@.take(i as int)),
        decreases w.len() - i,
    {
        push_arg(v, w[i].as_str());
        assert(string_views(w@.take(i + 1)) =~= string_views(w@.take(i as int)).push(w@[i as int]@));
        assert(start + string_views(w@.take(i + 1)) =~= (start + string_views(w@.take(i as int))).push(w@[i as int]@));
        i = i + 1;
    }
    assert(w@.take(w.len() as int) == w@);
}

// ---------------------------------------------------------------------------
// Isolation applied in the child before exec
// ---------------------------------------------------------------------------

/// A kernel resource limit.
#[derive(Clone, Copy, Debug, PartialEq, Eq, Structural)]
pub enum RlimitResource {
    /// `RLIMIT_AS`: virtual address space, in bytes.
    AddressSpace,
    /// `RLIMIT_CPU`: CPU time, in seconds.
    CpuTime,
    /// `RLIMIT_NOFILE`: open file descriptors.
    OpenFiles,
    /// `RLIMIT_NPROC`: tasks of the real user.
    Processes,
}

/// A resource limit, set as both soft and hard limit.
#[derive(Clone, Copy, Debug, PartialEq, Eq, Structural)]
pub struct RlimitSetting {
    /// The limited resource.
    pub resource: RlimitResource,
    /// The limit.
    pub limit: u64,
}

/// What the child does right before it executes the runtime, in this order:
/// close inherited descriptors above 2, set the resource limits, install the
/// seccomp filter. A failure of any step aborts the start.
#[derive(Clone, Debug)]
pub struct PreExecPlan {
    /// Close every inherited file descriptor above 2.
    pub close_inherited_fds: bool,
    /// Resource limits, in order.
    pub rlimits: Vec<RlimitSetting>,
    /// Install the seccomp allowlist filter.
    pub seccomp: bool,
}

/// The `RLIMIT_NPROC` limit: the threads that the user runs already, plus the
/// sandbox's process budget, plus 64 so that the child can fork before the
/// cgroup pids controller applies; saturating at `u64::MAX`.
pub open spec fn spec_nproc_limit(threads: u64, max_processes: u64) -> u64 {
    if threads + max_processes + 64 > u64::MAX {
        u64::MAX
    } else {
        (threads + max_processes + 64) as u64
    }
}

/// The `RLIMIT_NPROC` limit for a user that runs `threads` threads.
pub fn nproc_limit_for_uid(threads: u64, max_processes: u64) -> (r: u64)
    ensures
        r == spec_nproc_limit(threads, max_processes),
{
    threads.saturating_add(max_processes).saturating_add(64)
}

/// The resource limits set before exec: address space, CPU time, open files, tasks.
pub open spec fn spec_rlimits(config: SandboxConfig, nproc_limit: u64) -> Seq<RlimitSetting> {
    seq![
        RlimitSetting { resource: RlimitResource::AddressSpace, limit: config.max_memory_bytes },
        RlimitSetting { resource: RlimitResource::CpuTime, limit: config.max_cpu_seconds },
        RlimitSetting { resource: RlimitResource::OpenFiles, limit: config.max_fds },
        RlimitSetting { resource: RlimitResource::Processes, limit: nproc_limit },
    ]
}

/// The isolation that every sandboxed process gets before exec, whatever the strategy.
pub open spec fn is_full_isolation(p: PreExecPlan, config: SandboxConfig, nproc_limit: u64) -> bool {
    &&& p.close_inherited_fds
    &&& p.rlimits@ == spec_rlimits(config, nproc_limit)
    &&& p.seccomp
}

/// The isolation applied before exec.
pub fn pre_exec_plan(config: &SandboxConfig, nproc_limit: u64) -> (p: PreExecPlan)
    ensures
        is_full_isolation(p, *config, nproc_limit),
{
    let rlimits = vec![
        RlimitSetting { resource: RlimitResource::AddressSpace, limit: config.max_memory_bytes },
        RlimitSetting { resource: RlimitResource::CpuTime, limit: config.max_cpu_seconds },
        RlimitSetting { resource: RlimitResource::OpenFiles, limit: config.max_fds },
        RlimitSetting { resource: RlimitResource::Processes, limit: nproc_limit },
    ];
    PreExecPlan { close_inherited_fds: true, rlimits, seccomp: true }
}

// ---------------------------------------------------------------------------
// Containment wrappers
// ---------------------------------------------------------------------------

/// The arguments of `unshare`: new PID (with a fresh `/proc`), mount and user
/// namespaces, a new network namespace unless localhost is allowed, then the runtime.
pub open spec fn spec_unshare_args(runtime: Seq<char>, allow_localhost: bool) -> Seq<Seq<char>> {
    seq!["--pid"@, "--fork"@, "--mount-proc"@, "--mount"@, "--map-root-user"@] + (if allow_localhost {
        Seq::<Seq<char>>::empty()
    } else {
        seq!["--net"@]
    }) + seq!["--"@, runtime]
}

/// The arguments of `unshare` for `runtime`.
pub fn unshare_args(runtime: &str, config: &SandboxConfig) -> (v: Vec<String>)
    ensures
        string_views(v@) == spec_unshare_args(runtime@, config.allow_localhost),
{
    let mut v: Vec<String> = Vec::new();
    push_arg(&mut v, "--pid");
    push_arg(&mut v, "--fork");
    push_arg(&mut v, "--mount-proc");
    push_arg(&mut v, "--mount");
    push_arg(&mut v, "--map-root-user");
    if !config.allow_localhost {
        push_arg(&mut v, "--net");
    }
    push_arg(&mut v, "--");
    push_arg(&mut v, runtime);
    assert(string_views(v@) =~= spec_unshare_args(runtime@, config.allow_localhost));
    v
}

/// The canonical forms of the paths that the bubblewrap strategy binds;
/// `None` where canonicalization failed. The mount entries follow the order
/// of the configuration's mounts; a missing entry counts as a failure.
#[derive(Clone, Debug)]
pub struct CanonicalPaths {
    /// The canonical work directory.
    pub work_dir: Option<String>,
    /// The canonical harness path.
    pub harness: Option<String>,
    /// The canonical runtime path (consulted when the runtime path is absolute).
    pub runtime: Option<String>,
    /// The canonical host paths of the read-only mounts.
    pub readonly_hosts: Vec<Option<String>>,
    /// The canonical host paths of the read-write mounts.
    pub writable_hosts: Vec<Option<String>>,
}

/// The canonical form of the `i`-th entry of `v`, if it exists and canonicalization succeeded.
pub open spec fn canon_at(v: Seq<Option<String>>, i: int) -> Option<Seq<char>> {
    if 0 <= i < v.len() {
        match v[i] {
            Some(c) => Some(c@),
            None => None,
        }
    } else {
        None
    }
}

/// The fixed part of a bubblewrap command line: an empty tmpfs root, a
/// private `/tmp`, fresh `/proc` and `/dev`, and the system directories
/// bound read-only (the optional ones only where they exist).
pub open spec fn bwrap_base_args() -> Seq<Seq<char>> {
    seq![
        "--tmpfs"@, "/"@, "--tmpfs"@, "/tmp"@, "--proc"@, "/proc"@, "--dev"@, "/dev"@,
        "--ro-bind"@, "/usr"@, "/usr"@,
        "--ro-bind-try"@, "/bin"@, "/bin"@,
        "--ro-bind-try"@, "/lib"@, "/lib"@,
        "--ro-bind-try"@, "/lib64"@, "/lib64"@,
    ]
}

/// The bind arguments of the first `n` bubblewrap mounts of `mounts`, or the
/// first error: a host path that is not absolute, then one that could not
/// be canonicalized.
pub open spec fn spec_bwrap_mounts(
    mounts: Seq<(String, String)>,
    canon: Seq<Option<String>>,
    n: int,
    kind: Seq<char>,
    flag: Seq<char>,
) -> Result<Seq<Seq<char>>, BuildError>
    decreases n,
{
    if n <= 0 {
        Ok(Seq::empty())
    } else {
        match spec_bwrap_mounts(mounts, canon, n - 1, kind, flag) {
            Err(e) => Err(e),
            Ok(args) => {
                let (host, container) = mounts[n - 1];
                if !is_absolute(host@) {
                    Err(BuildError::MountHostNotAbsolute(kind, host@))
                } else {
                    match canon_at(canon, n - 1) {
                        None => Err(BuildError::CanonicalizationFailed(host@)),
                        Some(c) => Ok(args + seq![flag, c, container@]),
                    }
                }
            },
        }
    }
}

proof fn lemma_bwrap_mounts_error_persists(
    mounts: Seq<(String, String)>,
    canon: Seq<Option<String>>,
    m: int,
    n: int,
    kind: Seq<char>,
    flag: Seq<char>,
)
    requires
        0 < m <= n,
        spec_bwrap_mounts(mounts, canon, m, kind, flag) is Err,
    ensures
        spec_bwrap_mounts(mounts, canon, n, kind, flag) == spec_bwrap_mounts(mounts, canon, m, kind, flag),
    decreases n - m,
{
    if m < n {
        lemma_bwrap_mounts_error_persists(mounts, canon, m, n - 1, kind, flag);
    }
}

/// The arguments of `bwrap` for the given runtime, harness and work directory.
pub open spec fn spec_bwrap_args(
    runtime: Seq<char>,
    harness: Seq<char>,
    work_dir: Seq<char>,
    config: SandboxConfig,
    canon: CanonicalPaths,
) -> Result<Seq<Seq<char>>, BuildError> {
    match canon.work_dir {
        None => Err(BuildError::CanonicalizationFailed(work_dir)),
        Some(wd) => match canon.harness {
            None => Err(BuildError::CanonicalizationFailed(harness)),
            Some(hp) => {
                let runtime_bind = if is_absolute(runtime) {
                    match canon.runtime {
                        None => Err(BuildError::CanonicalizationFailed(runtime)),
                        Some(rt) => Ok(seq!["--ro-bind"@, rt@, rt@]),
                    }
                } else {
                    Ok(Seq::empty())
                };
                match runtime_bind {
                    Err(e) => Err(e),
                    Ok(rt_args) => match spec_bwrap_mounts(
                        config.readonly_mounts@,
                        canon.readonly_hosts@,
                        config.readonly_mounts@.len() as int,
                        "readonly_mount"@,
                        "--ro-bind"@,
                    ) {
                        Err(e) => Err(e),
                        Ok(ro) => match spec_bwrap_mounts(
                            config.writable_mounts@,
                            canon.writable_hosts@,
                            config.writable_mounts@.len() as int,
                            "writable_mount"@,
                            "--bind"@,
                        ) {
                            Err(e) => Err(e),
                            Ok(rw) => Ok(bwrap_base_args() + seq!["--ro-bind"@, wd@, wd@] + seq![
                                "--ro-bind"@,
                                hp@,
                                hp@,
                            ] + rt_args + ro + rw + (if config.allow_localhost {
                                Seq::<Seq<char>>::empty()
                            } else {
                                seq!["--unshare-net"@]
                            }) + seq!["--unshare-pid"@, "--die-with-parent"@, "--"@, runtime]),
                        },
                    },
                }
            },
        },
    }
}

/// The canonical form of the `i`-th entry of `v`, if any.
fn canon_entry(v: &Vec<Option<String>>, i: usize) -> (r: Option<&String>)
    ensures
        match r {
            Some(c) => canon_at(v@, i as int) == Some(c@),
            None => canon_at(v@, i as int) is None,
        },
{
    if i < v.len() {
        match &v[i] {
            Some(c) => Some(c),
            None => None,
        }
    } else {
        None
    }
}

/// Appends the bind arguments of `mounts` to `v`, or reports the first bad mount.
fn push_bwrap_mounts(
    v: &mut Vec<String>,
    mounts: &Vec<(String, String)>,
    canon: &Vec<Option<String>>,
    kind: &'static str,
    flag: &str,
) -> (r: Result<(), BuildCommandError>)
    ensures
        match spec_bwrap_mounts(mounts@, canon@, mounts@.len() as int, kind@, flag@) {
            Ok(args) => r is Ok && string_views(final(v)@) == string_views(old(v)@) + args,
            Err(e) => r matches Err(x) && x@ == e,
        },
{
    let ghost start = string_views(v@);
    let mut i: usize = 0;
    assert(start + Seq::<Seq<char>>::empty() =~= start);
    while i < mounts.len()
        invariant
            i <= mounts.len(),
            spec_bwrap_mounts(mounts@, canon@, i as int, kind@, flag@) is Ok,
            string_views(v@) == start + spec_bwrap_mounts(mounts@, canon@, i as int, kind@, flag@)->Ok_0,
        decreases mounts.len() - i,
    {
        let host = mounts[i].0.as_str();
        let container = mounts[i].1.as_str();
        if !path_is_absolute(host) {
            proof {
                lemma_bwrap_mounts_error_persists(mounts@, canon@, i + 1, mounts@.len() as int, kind@, flag@);
            }
            return Err(BuildCommandError::MountHostNotAbsolute { mount_kind: kind, path: String::from_str(host) });
        }
        match canon_entry(canon, i) {
            None => {
                proof {
                    lemma_bwrap_mounts_error_persists(mounts@, canon@, i + 1, mounts@.len() as int, kind@, flag@);
                }
                return Err(BuildCommandError::CanonicalizationFailed { path: String::from_str(host) });
            },
            Some(c) => {
                let ghost before = string_views(v@);
                push_arg(v, flag);
                push_arg(v, c.as_str());
                push_arg(v, container);
                assert(string_views(v@) =~= before + seq![flag@, c@, container@]);
            },
        }
        i = i + 1;
    }
    Ok(())
}

/// The arguments of `bwrap` for `runtime`, `harness` and `work_dir`.
pub fn bwrap_args(
    runtime: &str,
    harness: &str,
    work_dir: &str,
    config: &SandboxConfig,
    canon: &CanonicalPaths,
) -> (r: Result<Vec<String>, BuildCommandError>)
    ensures
        match spec_bwrap_args(runtime@, harness@, work_dir@, *config, *canon) {
            Ok(args) => r matches Ok(v) && string_views(v@) == args,
            Err(e) => r matches Err(x) && x@ == e,
        },
{
    let wd = match &canon.work_dir {
        None => return Err(BuildCommandError::CanonicalizationFailed { path: String::from_str(work_dir) }),
        Some(w) => w,
    };
    let hp = match &canon.harness {
        None => return Err(BuildCommandError::CanonicalizationFailed { path: String::from_str(harness) }),
        Some(h) => h,
    };
    let mut v: Vec<String> = Vec::new();
    push_arg(&mut v, "--tmpfs");
    push_arg(&mut v, "/");
    push_arg(&mut v, "--tmpfs");
    push_arg(&mut v, "/tmp");
    push_arg(&mut v, "--proc");
    push_arg(&mut v, "/proc");
    push_arg(&mut v, "--dev");
    push_arg(&mut v, "/dev");
    push_arg(&mut v, "--ro-bind");
    push_arg(&mut v, "/usr");
    push_arg(&mut v, "/usr");
    push_arg(&mut v, "--ro-bind-try");
    push_arg(&mut v, "/bin");
    push_arg(&mut v, "/bin");
    push_arg(&mut v, "--ro-bind-try");
    push_arg(&mut v, "/lib");
    push_arg(&mut v, "/lib");
    push_arg(&mut v, "--ro-bind-try");
    push_arg(&mut v, "/lib64");
    push_arg(&mut v, "/lib64");
    assert(string_views(v@) =~= bwrap_base_args());
    push_arg(&mut v, "--ro-bind");
    push_arg(&mut v, wd.as_str());
    push_arg(&mut v, wd.as_str());
    push_arg(&mut v, "--ro-bind");
    push_arg(&mut v, hp.as_str());
    push_arg(&mut v, hp.as_str());
    let ghost after_paths = string_views(v@);
    assert(after_paths =~= bwrap_base_args() + seq!["--ro-bind"@, wd@, wd@] + seq!["--ro-bind"@, hp@, hp@]);
    if path_is_absolute(runtime) {
        match &canon.runtime {
            None => return Err(BuildCommandError::CanonicalizationFailed { path: String::from_str(runtime) }),
            Some(rt) => {
                push_arg(&mut v, "--ro-bind");
                push_arg(&mut v, rt.as_str());
                push_arg(&mut v, rt.as_str());
            },
        }
    }
    let ghost after_runtime = string_views(v@);
    match push_bwrap_mounts(&mut v, &config.readonly_mounts, &canon.readonly_hosts, "readonly_mount", "--ro-bind") {
        Err(e) => return Err(e),
        Ok(()) => {},
    }
    let ghost after_ro = string_views(v@);
    match push_bwrap_mounts(&mut v, &config.writable_mounts, &canon.writable_hosts, "writable_mount", "--bind") {
        Err(e) => return Err(e),
        Ok(()) => {},
    }
    let ghost after_rw = string_views(v@);
    if !config.allow_localhost {
        push_arg(&mut v, "--unshare-net");
    }
    let ghost after_net = string_views(v@);
    push_arg(&mut v, "--unshare-pid");
    push_arg(&mut v, "--die-with-parent");
    push_arg(&mut v, "--");
    push_arg(&mut v, runtime);
    proof {
        let rt_args = after_runtime.skip(after_paths.len() as int);
        assert(after_runtime =~= after_paths + rt_args);
        let ro = after_ro.skip(after_runtime.len() as int);
        assert(after_ro =~= after_runtime + ro);
        let rw = after_rw.skip(after_ro.len() as int);
        assert(after_rw =~= after_ro + rw);
        let net = after_net.skip(after_rw.len() as int);
        assert(after_net =~= after_rw + net);
        assert(string_views(v@) =~= after_net + seq!["--unshare-pid"@, "--die-with-parent"@, "--"@, runtime@]);
        assert(net =~= (if config.allow_localhost {
            Seq::<Seq<char>>::empty()
        } else {
            seq!["--unshare-net"@]
        }));
        assert(string_views(v@) =~= bwrap_base_args() + seq!["--ro-bind"@, wd@, wd@] + seq![
            "--ro-bind"@,
            hp@,
            hp@,
        ] + rt_args + ro + rw + net + seq!["--unshare-pid"@, "--die-with-parent"@, "--"@, runtime@]);
    }
    Ok(v)
}

/// The `--timeout` value of firejail: `00:MM:SS`, minutes and seconds of
/// `seconds`, each written with at least two digits.
pub open spec fn spec_firejail_timeout(seconds: u64) -> Seq<char> {
    "--timeout=00:"@ + decimal_pad2((seconds / 60) as nat) + ":"@ + decimal_pad2((seconds % 60) as nat)
}

/// The whitelist arguments of the first `n` firejail mounts of `mounts`, or the
/// first mount whose host path is not absolute. Read-only mounts are also marked read-only.
pub open spec fn spec_firejail_mounts(mounts: Seq<(String, String)>, n: int, kind: Seq<char>, read_only: bool) -> Result<
    Seq<Seq<char>>,
    BuildError,
>
    decreases n,
{
    if n <= 0 {
        Ok(Seq::empty())
    } else {
        match spec_firejail_mounts(mounts, n - 1, kind, read_only) {
            Err(e) => Err(e),
            Ok(args) => {
                let host = mounts[n - 1].0@;
                if !is_absolute(host) {
                    Err(BuildError::MountHostNotAbsolute(kind, host))
                } else if read_only {
                    Ok(args + seq!["--whitelist="@ + host, "--read-only="@ + host])
                } else {
                    Ok(args + seq!["--whitelist="@ + host])
                }
            },
        }
    }
}

proof fn lemma_firejail_mounts_error_persists(mounts: Seq<(String, String)>, m: int, n: int, kind: Seq<char>, read_only: bool)
    requires
        0 < m <= n,
        spec_firejail_mounts(mounts, m, kind, read_only) is Err,
    ensures
        spec_firejail_mounts(mounts, n, kind, read_only) == spec_firejail_mounts(mounts, m, kind, read_only),
    decreases n - m,
{
    if m < n {
        lemma_firejail_mounts_error_persists(mounts, m, n - 1, kind, read_only);
    }
}

/// The arguments of `firejail`: no profile, no root, no sound/3D/DVD, no new
/// privileges, its own seccomp filter, a private work directory, the
/// resource limits and the timeout, no network unless localhost is allowed,
/// the whitelisted mounts, then the runtime.
pub open spec fn spec_firejail_args(runtime: Seq<char>, work_dir: Seq<char>, config: SandboxConfig, nproc_limit: u64) -> Result<
    Seq<Seq<char>>,
    BuildError,
> {
    match spec_firejail_mounts(config.readonly_mounts@, config.readonly_mounts@.len() as int, "readonly_mount"@, true) {
        Err(e) => Err(e),
        Ok(ro) => match spec_firejail_mounts(
            config.writable_mounts@,
            config.writable_mounts@.len() as int,
            "writable_mount"@,
            false,
        ) {
            Err(e) => Err(e),
            Ok(rw) => Ok(seq![
                "--quiet"@,
                "--noprofile"@,
                "--noroot"@,
                "--nosound"@,
                "--no3d"@,
                "--nodvd"@,
                "--nonewprivs"@,
                "--seccomp"@,
                "--private="@ + work_dir,
                "--rlimit-as="@ + decimal(config.max_memory_bytes as nat),
                "--rlimit-nofile="@ + decimal(config.max_fds as nat),
                "--rlimit-nproc="@ + decimal(nproc_limit as nat),
                spec_firejail_timeout(config.timeout_seconds),
            ] + (if config.allow_localhost {
                Seq::<Seq<char>>::empty()
            } else {
                seq!["--net=none"@]
            }) + ro + rw + seq!["--"@, runtime]),
        },
    }
}

proof fn lemma_firejail_mounts_shape(mounts: Seq<(String, String)>, n: int, kind: Seq<char>, read_only: bool)
    requires
        0 <= n <= mounts.len(),
    ensures
        spec_firejail_mounts(mounts, n, kind, read_only) is Ok <==> forall|i: int|
            0 <= i < n ==> is_absolute(#[trigger] mounts[i].0@),
        spec_firejail_mounts(mounts, n, kind, read_only) matches Ok(args) ==> {
            &&& args.len() == (if read_only { 2 * n } else { n })
            &&& forall|i: int| 0 <= i < n ==> if read_only {
                args[2 * i] == "--whitelist="@ + (#[trigger] mounts[i]).0@ && args[2 * i + 1] == "--read-only="@
                    + mounts[i].0@
            } else {
                args[i] == "--whitelist="@ + (#[trigger] mounts[i]).0@
            }
        },
    decreases n,
{
    if n > 0 {
        lemma_firejail_mounts_shape(mounts, n - 1, kind, read_only);
        let host = mounts[n - 1].0@;
        if !is_absolute(host) {
            assert(spec_firejail_mounts(mounts, n, kind, read_only) is Err);
        }
        if let Ok(args) = spec_firejail_mounts(mounts, n, kind, read_only) {
            let prev = spec_firejail_mounts(mounts, n - 1, kind, read_only)->Ok_0;
            assert forall|i: int| 0 <= i < n implies if read_only {
                args[2 * i] == "--whitelist="@ + (#[trigger] mounts[i]).0@ && args[2 * i + 1] == "--read-only="@
                    + mounts[i].0@
            } else {
                args[i] == "--whitelist="@ + mounts[i].0@
            } by {
                if i < n - 1 {
                    if read_only {
                        assert(args[2 * i] == prev[2 * i]);
                        assert(args[2 * i + 1] == prev[2 * i + 1]);
                    } else {
                        assert(args[i] == prev[i]);
                    }
                }
            }
        }
    }
}

/// What `firejail` is told about the mounts: the command is built exactly
/// when every mount host is absolute, and then, right after the network
/// flag, each read-only mount `i` is whitelisted and made read-only (the two
/// arguments at positions `13 + net + 2i` and `14 + net + 2i`, where `net` is
/// 1 when the network is cut and 0 otherwise), each writable mount `j` is
/// whitelisted alone, after them, and the command ends with `--` and the
/// runtime.
pub proof fn lemma_firejail_mount_args(runtime: Seq<char>, work_dir: Seq<char>, config: SandboxConfig, nproc_limit: u64)
    ensures
        spec_firejail_args(runtime, work_dir, config, nproc_limit) is Ok <==> (forall|i: int|
            0 <= i < config.readonly_mounts@.len() ==> is_absolute(#[trigger] config.readonly_mounts@[i].0@)) && (
        forall|j: int| 0 <= j < config.writable_mounts@.len() ==> is_absolute(#[trigger] config.writable_mounts@[j].0@)),
        spec_firejail_args(runtime, work_dir, config, nproc_limit) matches Ok(args) ==> {
            let net: int = if config.allow_localhost { 0 } else { 1 };
            let ro = config.readonly_mounts@;
            let rw = config.writable_mounts@;
            &&& args.len() == 13 + net + 2 * ro.len() + rw.len() + 2
            &&& forall|i: int| 0 <= i < ro.len() ==> args[13 + net + 2 * i] == "--whitelist="@ + (#[trigger] ro[i]).0@
                && args[14 + net + 2 * i] == "--read-only="@ + ro[i].0@
            &&& forall|j: int| 0 <= j < rw.len() ==> args[13 + net + 2 * ro.len() + j] == "--whitelist="@ + (
            #[trigger] rw[j]).0@
            &&& args[args.len() - 2] == "--"@
            &&& args[args.len() - 1] == runtime
        },
{
    let ro = config.readonly_mounts@;
    let rw = config.writable_mounts@;
    lemma_firejail_mounts_shape(ro, ro.len() as int, "readonly_mount"@, true);
    lemma_firejail_mounts_shape(rw, rw.len() as int, "writable_mount"@, false);
    if let Ok(args) = spec_firejail_args(runtime, work_dir, config, nproc_limit) {
        let net: int = if config.allow_localhost { 0 } else { 1 };
        let roa = spec_firejail_mounts(ro, ro.len() as int, "readonly_mount"@, true)->Ok_0;
        let rwa = spec_firejail_mounts(rw, rw.len() as int, "writable_mount"@, false)->Ok_0;
        let head = seq![
            "--quiet"@,
            "--noprofile"@,
            "--noroot"@,
            "--nosound"@,
            "--no3d"@,
            "--nodvd"@,
            "--nonewprivs"@,
            "--seccomp"@,
            "--private="@ + work_dir,
            "--rlimit-as="@ + decimal(config.max_memory_bytes as nat),
            "--rlimit-nofile="@ + decimal(config.max_fds as nat),
            "--rlimit-nproc="@ + decimal(nproc_limit as nat),
            spec_firejail_timeout(config.timeout_seconds),
        ] + (if config.allow_localhost {
            Seq::<Seq<char>>::empty()
        } else {
            seq!["--net=none"@]
        });
        assert(head.len() == 13 + net);
        assert(args == head + roa + rwa + seq!["--"@, runtime]);
        assert forall|i: int| 0 <= i < ro.len() implies args[13 + net + 2 * i] == "--whitelist="@ + (
        #[trigger] ro[i]).0@ && args[14 + net + 2 * i] == "--read-only="@ + ro[i].0@ by {
            assert(args[13 + net + 2 * i] == roa[2 * i]);
            assert(args[14 + net + 2 * i] == roa[2 * i + 1]);
        }
        assert forall|j: int| 0 <= j < rw.len() implies args[13 + net + 2 * ro.len() + j] == "--whitelist="@ + (
        #[trigger] rw[j]).0@ by {
            assert(args[13 + net + 2 * ro.len() + j] == rwa[j]);
        }
    }
}

/// Appends the whitelist arguments of `mounts` to `v`, or reports the first bad mount.
fn push_firejail_mounts(v: &mut Vec<String>, mounts: &Vec<(String, String)>, kind: &'static str, read_only: bool) -> (r:
    Result<(), BuildCommandError>)
    ensures
        match spec_firejail_mounts(mounts@, mounts@.len() as int, kind@, read_only) {
            Ok(args) => r is Ok && string_views(final(v)@) == string_views(old(v)@) + args,
            Err(e) => r matches Err(x) && x@ == e,
        },
{
    let ghost start = string_views(v@);
    let mut i: usize = 0;
    assert(start + Seq::<Seq<char>>::empty() =~= start);
    while i < mounts.len()
        invariant
            i <= mounts.len(),
            spec_firejail_mounts(mounts@, i as int, kind@, read_only) is Ok,
            string_views(v@) == start + spec_firejail_mounts(mounts@, i as int, kind@, read_only)->Ok_0,
        decreases mounts.len() - i,
    {
        let host = mounts[i].0.as_str();
        if !path_is_absolute(host) {
            proof {
                lemma_firejail_mounts_error_persists(mounts@, i + 1, mounts@.len() as int, kind@, read_only);
            }
            return Err(BuildCommandError::MountHostNotAbsolute { mount_kind: kind, path: String::from_str(host) });
        }
        let ghost before = string_views(v@);
        push_owned(v, concat("--whitelist=", host));
        if read_only {
            push_owned(v, concat("--read-only=", host));
            assert(string_views(v@) =~= before + seq!["--whitelist="@ + host@, "--read-only="@ + host@]);
        } else {
            assert(string_views(v@) =~= before + seq!["--whitelist="@ + host@]);
        }
        i = i + 1;
    }
    Ok(())
}

/// The arguments of `firejail` for `runtime` and `work_dir`.
pub fn firejail_args(runtime: &str, work_dir: &str, config: &SandboxConfig, nproc_limit: u64) -> (r: Result<
    Vec<String>,
    BuildCommandError,
>)
    ensures
        match spec_firejail_args(runtime@, work_dir@, *config, nproc_limit) {
            Ok(args) => r matches Ok(v) && string_views(v@) == args,
            Err(e) => r matches Err(x) && x@ == e,
        },
{
    let mut v: Vec<String> = Vec::new();
    push_arg(&mut v, "--quiet");
    push_arg(&mut v, "--noprofile");
    push_arg(&mut v, "--noroot");
    push_arg(&mut v, "--nosound");
    push_arg(&mut v, "--no3d");
    push_arg(&mut v, "--nodvd");
    push_arg(&mut v, "--nonewprivs");
    push_arg(&mut v, "--seccomp");
    push_owned(&mut v, concat("--private=", work_dir));
    let mem = decimal_string(config.max_memory_bytes);
    push_owned(&mut v, concat("--rlimit-as=", mem.as_str()));
    let fds = decimal_string(config.max_fds);
    push_owned(&mut v, concat("--rlimit-nofile=", fds.as_str()));
    let nproc = decimal_string(nproc_limit);
    push_owned(&mut v, concat("--rlimit-nproc=", nproc.as_str()));
    let minutes = decimal_pad2_string(config.timeout_seconds / 60);
    let seconds = decimal_pad2_string(config.timeout_seconds % 60);
    let mut timeout = concat("--timeout=00:", minutes.as_str());
    timeout.append(":");
    timeout.append(seconds.as_str());
    push_owned(&mut v, timeout);
    if !config.allow_localhost {
        push_arg(&mut v, "--net=none");
    }
    let ghost head = string_views(v@);
    match push_firejail_mounts(&mut v, &config.readonly_mounts, "readonly_mount", true) {
        Err(e) => return Err(e),
        Ok(()) => {},
    }
    let ghost after_ro = string_views(v@);
    match push_firejail_mounts(&mut v, &config.writable_mounts, "writable_mount", false) {
        Err(e) => return Err(e),
        Ok(()) => {},
    }
    let ghost after_rw = string_views(v@);
    push_arg(&mut v, "--");
    push_arg(&mut v, runtime);
    proof {
        let ro = after_ro.skip(head.len() as int);
        assert(after_ro =~= head + ro);
        let rw = after_rw.skip(after_ro.len() as int);
        assert(after_rw =~= after_ro + rw);
        assert(head =~= seq![
            "--quiet"@,
            "--noprofile"@,
            "--noroot"@,
            "--nosound"@,
            "--no3d"@,
            "--nodvd"@,
            "--nonewprivs"@,
            "--seccomp"@,
            "--private="@ + work_dir@,
            "--rlimit-as="@ + decimal(config.max_memory_bytes as nat),
            "--rlimit-nofile="@ + decimal(config.max_fds as nat),
            "--rlimit-nproc="@ + decimal(nproc_limit as nat),
            spec_firejail_timeout(config.timeout_seconds),
        ] + (if config.allow_localhost {
            Seq::<Seq<char>>::empty()
        } else {
            seq!["--net=none"@]
        }));
        assert(string_views(v@) =~= head + ro + rw + seq!["--"@, runtime@]);
    }
    Ok(v)
}

// ---------------------------------------------------------------------------
// The whole command
// ---------------------------------------------------------------------------

/// What the command builder needs to know about the host.
#[derive(Clone, Debug)]
pub struct HostFacts {
    /// The environment of the current process.
    pub env_vars: Vec<(String, String)>,
    /// The threads that the current user runs already, which count against
    /// its `RLIMIT_NPROC` (see [`nproc_limit_for_uid`]).
    pub uid_threads: u64,
    /// Canonical forms of the paths that the bubblewrap strategy binds.
    pub canonical: CanonicalPaths,
}

/// The command that starts a sandboxed process.
#[derive(Clone, Debug)]
pub struct CommandPlan {
    /// The program to execute: the containment wrapper, or the runtime itself.
    pub program: String,
    /// Its arguments.
    pub args: Vec<String>,
    /// The child leads a process group of its own, so that the whole
    /// sandboxed tree can be signalled at once.
    pub new_process_group: bool,
    /// A custom provider adapts the command after the arguments are in place.
    pub provider_hook: bool,
    /// The environment changes, applied after the provider.
    pub env: EnvPlan,
    /// What the child does right before exec.
    pub pre_exec: PreExecPlan,
}

/// The `RLIMIT_NPROC` limit of a sandboxed process on `host`.
pub open spec fn host_nproc_limit(host: HostFacts, config: SandboxConfig) -> u64 {
    spec_nproc_limit(host.uid_threads, config.max_processes)
}

/// The program and its leading arguments for `strategy`, before the runtime
/// arguments, the harness and the work directory.
pub open spec fn spec_wrapper(
    runtime: Seq<char>,
    harness: Seq<char>,
    work_dir: Seq<char>,
    config: SandboxConfig,
    strategy: Strategy,
    host: HostFacts,
) -> Result<(Seq<char>, Seq<Seq<char>>), BuildError> {
    match strategy {
        Strategy::Unshare => Ok(("unshare"@, spec_unshare_args(runtime, config.allow_localhost))),
        Strategy::Bubblewrap => match spec_bwrap_args(runtime, harness, work_dir, config, host.canonical) {
            Ok(a) => Ok(("bwrap"@, a)),
            Err(e) => Err(e),
        },
        Strategy::Firejail => match spec_firejail_args(runtime, work_dir, config, host_nproc_limit(host, config)) {
            Ok(a) => Ok(("firejail"@, a)),
            Err(e) => Err(e),
        },
        Strategy::RlimitsOnly | Strategy::Unconfined => Ok((runtime, Seq::empty())),
    }
}

/// The first input problem that `build_command` reports, if any: a work
/// directory that is not absolute, an empty harness path, a harness path that
/// is not absolute, or an invalid `env_set` entry.
pub open spec fn spec_input_error(harness: Seq<char>, work_dir: Seq<char>, config: SandboxConfig) -> Option<BuildError> {
    if !is_absolute(work_dir) {
        Some(BuildError::WorkDirNotAbsolute(work_dir))
    } else if harness.len() == 0 {
        Some(BuildError::HarnessPathEmpty)
    } else if !is_absolute(harness) {
        Some(BuildError::HarnessPathNotAbsolute(harness))
    } else {
        None
    }
}

/// The command is the one for `runtime`, `harness`, `work_dir`, `config` and
/// `strategy` (or a custom provider), on a host described by `host`.
pub open spec fn is_command_for(
    plan: CommandPlan,
    runtime: Seq<char>,
    harness: Seq<char>,
    work_dir: Seq<char>,
    config: SandboxConfig,
    strategy: Strategy,
    host: HostFacts,
    custom_provider: bool,
) -> bool {
    &&& is_env_plan_for(plan.env, config, pair_views(host.env_vars@), work_dir)
    &&& is_full_isolation(plan.pre_exec, config, host_nproc_limit(host, config))
    &&& plan.new_process_group
    &&& plan.provider_hook == custom_provider
    &&& if custom_provider {
        &&& plan.program@ == runtime
        &&& string_views(plan.args@) == string_views(config.runtime_args@) + seq![harness]
    } else {
        match spec_wrapper(runtime, harness, work_dir, config, strategy, host) {
            Ok((program, lead)) => plan.program@ == program && string_views(plan.args@) == lead
                + string_views(config.runtime_args@) + seq![harness, work_dir],
            Err(_) => false,
        }
    }
}

/// Builds the command that starts `runtime` on `harness` in `work_dir` under
/// `strategy`, or under a custom provider when `custom_provider` is set.
///
/// Inputs are checked first: the work directory and the harness path must be
/// absolute, and every `env_set` entry valid. A custom provider then receives
/// the runtime, its arguments and the harness; otherwise the containment
/// wrapper of the strategy comes first and the work directory is passed to the
/// harness as its first argument. Every command, custom or not, gets the
/// environment plan and the full pre-exec isolation.
pub fn build_command(
    runtime: &str,
    harness_path: &str,
    work_dir: &str,
    config: &SandboxConfig,
    strategy: Strategy,
    host: &HostFacts,
    custom_provider: bool,
) -> (r: Result<CommandPlan, BuildCommandError>)
    ensures
        match spec_input_error(harness_path@, work_dir@, *config) {
            Some(e) => r matches Err(x) && x@ == e,
            None => if exists|i: int| 0 <= i < config.env_set@.len() && spec_env_set_problem(*config, i) is Some {
                r matches Err(x) && exists|i: int|
                    0 <= i < config.env_set@.len() && (forall|j: int|
                        0 <= j < i ==> spec_env_set_problem(*config, j) is None) && ((#[trigger] spec_env_set_problem(
                        *config,
                        i,
                    )) matches Some(p) && reports_problem(x, p, config.env_set@[i].0@))
            } else if custom_provider {
                r matches Ok(plan) && is_command_for(plan, runtime@, harness_path@, work_dir@, *config, strategy, *host, true)
            } else {
                match spec_wrapper(runtime@, harness_path@, work_dir@, *config, strategy, *host) {
                    Ok(_) => r matches Ok(plan) && is_command_for(plan, runtime@, harness_path@, work_dir@, *config, strategy, *host, false),
                    Err(e) => r matches Err(x) && x@ == e,
                }
            },
        },
{
    if !path_is_absolute(work_dir) {
        return Err(BuildCommandError::WorkDirNotAbsolute { path: String::from_str(work_dir) });
    }
    if harness_path.is_empty() {
        return Err(BuildCommandError::HarnessPathEmpty);
    }
    if !path_is_absolute(harness_path) {
        return Err(BuildCommandError::HarnessPathNotAbsolute { path: String::from_str(harness_path) });
    }
    match validate_environment(config) {
        Err(e) => {
            return Err(e);
        },
        Ok(()) => {},
    }
    let env = env_plan(config, &host.env_vars, work_dir);
    let nproc_limit = nproc_limit_for_uid(host.uid_threads, config.max_processes);
    let pre_exec = pre_exec_plan(config, nproc_limit);
    if custom_provider {
        let mut args: Vec<String> = Vec::new();
        push_all(&mut args, &config.runtime_args);
        push_arg(&mut args, harness_path);
        assert(string_views(args@) =~= string_views(config.runtime_args@) + seq![harness_path@]);
        return Ok(
            CommandPlan {
                program: String::from_str(runtime),
                args,
                new_process_group: true,
                provider_hook: true,
                env,
                pre_exec,
            },
        );
    }
    let (program, mut args) = match strategy {
        Strategy::Unshare => (String::from_str("unshare"), unshare_args(runtime, config)),
        Strategy::Bubblewrap => match bwrap_args(runtime, harness_path, work_dir, config, &host.canonical) {
            Ok(a) => (String::from_str("bwrap"), a),
            Err(e) => return Err(e),
        },
        Strategy::Firejail => match firejail_args(runtime, work_dir, config, nproc_limit) {
            Ok(a) => (String::from_str("firejail"), a),
            Err(e) => return Err(e),
        },
        Strategy::RlimitsOnly | Strategy::Unconfined => {
            let v: Vec<String> = Vec::new();
            assert(string_views(v@) =~= Seq::<Seq<char>>::empty());
            (String::from_str(runtime), v)
        },
    };
    let ghost lead = string_views(args@);
    assert(spec_wrapper(runtime@, harness_path@, work_dir@, *config, strategy, *host) == Ok::<(Seq<char>, Seq<Seq<char>>), BuildError>((program@, lead)));
    push_all(&mut args, &config.runtime_args);
    push_arg(&mut args, harness_path);
    push_arg(&mut args, work_dir);
    assert(string_views(args@) =~= lead + string_views(config.runtime_args@) + seq![harness_path@, work_dir@]);
    Ok(CommandPlan { program, args, new_process_group: true, provider_hook: false, env, pre_exec })
}

/// Bubblewrap binds what the sandbox runs: right after the fixed layout come
/// the canonical work directory, the canonical harness and, for an absolute
/// runtime, the canonical runtime, each bound read-only onto itself.
pub proof fn lemma_bwrap_binds_inputs(
    runtime: Seq<char>,
    harness: Seq<char>,
    work_dir: Seq<char>,
    config: SandboxConfig,
    canon: CanonicalPaths,
)
    requires
        spec_bwrap_args(runtime, harness, work_dir, config, canon) is Ok,
    ensures
        ({
            let args = spec_bwrap_args(runtime, harness, work_dir, config, canon)->Ok_0;
            let wd = canon.work_dir->Some_0@;
            let hp = canon.harness->Some_0@;
            &&& canon.work_dir is Some && canon.harness is Some
            &&& args.subrange(0, 20) == bwrap_base_args()
            &&& args.subrange(20, 23) == seq!["--ro-bind"@, wd, wd]
            &&& args.subrange(23, 26) == seq!["--ro-bind"@, hp, hp]
            &&& is_absolute(runtime) ==> canon.runtime is Some && args.subrange(26, 29) == seq![
                "--ro-bind"@,
                canon.runtime->Some_0@,
                canon.runtime->Some_0@,
            ]
        }),
{
    let args = spec_bwrap_args(runtime, harness, work_dir, config, canon)->Ok_0;
    let c = canon;
    let wd = c.work_dir->Some_0;
    let hp = c.harness->Some_0;
    let rt_args = if is_absolute(runtime) {
        seq!["--ro-bind"@, c.runtime->Some_0@, c.runtime->Some_0@]
    } else {
        Seq::<Seq<char>>::empty()
    };
    let ro = spec_bwrap_mounts(
        config.readonly_mounts@,
        c.readonly_hosts@,
        config.readonly_mounts@.len() as int,
        "readonly_mount"@,
        "--ro-bind"@,
    )->Ok_0;
    let rw = spec_bwrap_mounts(
        config.writable_mounts@,
        c.writable_hosts@,
        config.writable_mounts@.len() as int,
        "writable_mount"@,
        "--bind"@,
    )->Ok_0;
    let net = if config.allow_localhost {
        Seq::<Seq<char>>::empty()
    } else {
        seq!["--unshare-net"@]
    };
    let rest = ro + rw + net + seq!["--unshare-pid"@, "--die-with-parent"@, "--"@, runtime];
    assert(args =~= bwrap_base_args() + seq!["--ro-bind"@, wd@, wd@] + seq!["--ro-bind"@, hp@, hp@] + rt_args + rest);
    assert(args.subrange(0, 20) =~= bwrap_base_args());
    assert(args.subrange(20, 23) =~= seq!["--ro-bind"@, wd@, wd@]);
    assert(args.subrange(23, 26) =~= seq!["--ro-bind"@, hp@, hp@]);
    if is_absolute(runtime) {
        assert(args.subrange(26, 29) =~= rt_args);
    }
}

/// What is wrong with the `i`-th bind mount of `mounts`, if anything: a host
/// path that is not absolute, or one that could not be canonicalized.
pub open spec fn mount_problem(mounts: Seq<(String, String)>, canon: Seq<Option<String>>, i: int, kind: Seq<char>) -> Option<
    BuildError,
> {
    let host = mounts[i].0@;
    if !is_absolute(host) {
        Some(BuildError::MountHostNotAbsolute(kind, host))
    } else if canon_at(canon, i) is None {
        Some(BuildError::CanonicalizationFailed(host))
    } else {
        None
    }
}

/// The bind arguments of the first `n` mounts: the first mount with a
/// problem decides the error; without one, each mount gives its flag, its
/// canonical host path and its container path, in order.
proof fn lemma_bwrap_mounts_shape(
    mounts: Seq<(String, String)>,
    canon: Seq<Option<String>>,
    n: int,
    kind: Seq<char>,
    flag: Seq<char>,
)
    requires
        0 <= n <= mounts.len(),
    ensures
        (forall|i: int| 0 <= i < n ==> #[trigger] mount_problem(mounts, canon, i, kind) is None) ==> ({
            let r = spec_bwrap_mounts(mounts, canon, n, kind, flag);
            &&& r is Ok
            &&& r->Ok_0.len() == 3 * n
            &&& forall|i: int| 0 <= i < n ==> #[trigger] r->Ok_0.subrange(3 * i, 3 * i + 3) == seq![
                flag,
                canon_at(canon, i)->Some_0,
                mounts[i].1@,
            ]
        }),
        forall|i: int|
            0 <= i < n && #[trigger] mount_problem(mounts, canon, i, kind) is Some && (forall|j: int|
                0 <= j < i ==> mount_problem(mounts, canon, j, kind) is None) ==> spec_bwrap_mounts(
                mounts,
                canon,
                n,
                kind,
                flag,
            ) == Err::<Seq<Seq<char>>, BuildError>(mount_problem(mounts, canon, i, kind)->Some_0),
    decreases n,
{
    if n > 0 {
        lemma_bwrap_mounts_shape(mounts, canon, n - 1, kind, flag);
        let prev = spec_bwrap_mounts(mounts, canon, n - 1, kind, flag);
        if forall|i: int| 0 <= i < n ==> #[trigger] mount_problem(mounts, canon, i, kind) is None {
            assert(mount_problem(mounts, canon, n - 1, kind) is None);
            let a = prev->Ok_0;
            let c = canon_at(canon, n - 1)->Some_0;
            let r = a + seq![flag, c, mounts[n - 1].1@];
            assert forall|i: int| 0 <= i < n implies #[trigger] r.subrange(3 * i, 3 * i + 3) == seq![
                flag,
                canon_at(canon, i)->Some_0,
                mounts[i].1@,
            ] by {
                if i < n - 1 {
                    assert(r.subrange(3 * i, 3 * i + 3) =~= a.subrange(3 * i, 3 * i + 3));
                } else {
                    assert(r.subrange(3 * i, 3 * i + 3) =~= seq![flag, c, mounts[n - 1].1@]);
                }
            }
        }
        assert forall|i: int|
            0 <= i < n && #[trigger] mount_problem(mounts, canon, i, kind) is Some && (forall|j: int|
                0 <= j < i ==> mount_problem(mounts, canon, j, kind) is None) implies spec_bwrap_mounts(
            mounts,
            canon,
            n,
            kind,
            flag,
        ) == Err::<Seq<Seq<char>>, BuildError>(mount_problem(mounts, canon, i, kind)->Some_0) by {
            if i == n - 1 {
                assert(forall|j: int| 0 <= j < n - 1 ==> #[trigger] mount_problem(mounts, canon, j, kind) is None);
            }
        }
    }
}

/// The bubblewrap command in one statement. Its errors come in order: the
/// work directory, the harness and (when absolute) the runtime must have
/// canonical forms, then the first read-only mount with a problem, then the
/// first writable one, decides. Without an error, the read-only mounts are
/// bound with `--ro-bind` and the writable ones with `--bind`, in order,
/// after the fixed layout and the bound inputs; the network is cut unless
/// localhost is allowed; and the arguments end with the runtime after `--`.
pub proof fn lemma_bwrap_command_law(
    runtime: Seq<char>,
    harness: Seq<char>,
    work_dir: Seq<char>,
    config: SandboxConfig,
    canon: CanonicalPaths,
)
    ensures
        ({
            let r = spec_bwrap_args(runtime, harness, work_dir, config, canon);
            let ro = config.readonly_mounts@;
            let rw = config.writable_mounts@;
            let ro_ok = forall|i: int| 0 <= i < ro.len() ==> #[trigger] mount_problem(ro, canon.readonly_hosts@, i, "readonly_mount"@) is None;
            let rw_ok = forall|i: int| 0 <= i < rw.len() ==> #[trigger] mount_problem(rw, canon.writable_hosts@, i, "writable_mount"@) is None;
            let inputs_ok = canon.work_dir is Some && canon.harness is Some && (is_absolute(runtime) ==> canon.runtime is Some);
            let off: int = if is_absolute(runtime) { 29 } else { 26 };
            &&& canon.work_dir is None ==> r == Err::<Seq<Seq<char>>, BuildError>(BuildError::CanonicalizationFailed(work_dir))
            &&& canon.work_dir is Some && canon.harness is None ==> r == Err::<Seq<Seq<char>>, BuildError>(
                BuildError::CanonicalizationFailed(harness),
            )
            &&& canon.work_dir is Some && canon.harness is Some && is_absolute(runtime) && canon.runtime is None ==> r
                == Err::<Seq<Seq<char>>, BuildError>(BuildError::CanonicalizationFailed(runtime))
            &&& forall|i: int|
                inputs_ok && 0 <= i < ro.len() && #[trigger] mount_problem(ro, canon.readonly_hosts@, i, "readonly_mount"@) is Some
                    && (forall|j: int| 0 <= j < i ==> mount_problem(ro, canon.readonly_hosts@, j, "readonly_mount"@) is None)
                    ==> r == Err::<Seq<Seq<char>>, BuildError>(mount_problem(ro, canon.readonly_hosts@, i, "readonly_mount"@)->Some_0)
            &&& forall|i: int|
                inputs_ok && ro_ok && 0 <= i < rw.len() && #[trigger] mount_problem(rw, canon.writable_hosts@, i, "writable_mount"@)
                    is Some && (forall|j: int| 0 <= j < i ==> mount_problem(rw, canon.writable_hosts@, j, "writable_mount"@) is None)
                    ==> r == Err::<Seq<Seq<char>>, BuildError>(mount_problem(rw, canon.writable_hosts@, i, "writable_mount"@)->Some_0)
            &&& inputs_ok && ro_ok && rw_ok ==> {
                &&& r is Ok
                &&& forall|i: int| 0 <= i < ro.len() ==> #[trigger] r->Ok_0.subrange(off + 3 * i, off + 3 * i + 3) == seq![
                    "--ro-bind"@,
                    canon_at(canon.readonly_hosts@, i)->Some_0,
                    ro[i].1@,
                ]
                &&& forall|i: int| 0 <= i < rw.len() ==> #[trigger] r->Ok_0.subrange(
                    off + 3 * ro.len() + 3 * i,
                    off + 3 * ro.len() + 3 * i + 3,
                ) == seq!["--bind"@, canon_at(canon.writable_hosts@, i)->Some_0, rw[i].1@]
                &&& !config.allow_localhost ==> r->Ok_0[off + 3 * ro.len() + 3 * rw.len()] == "--unshare-net"@
                &&& r->Ok_0.len() == off + 3 * ro.len() + 3 * rw.len() + (if config.allow_localhost { 0int } else { 1 }) + 4
                &&& r->Ok_0.subrange(r->Ok_0.len() - 4, r->Ok_0.len() as int) == seq![
                    "--unshare-pid"@,
                    "--die-with-parent"@,
                    "--"@,
                    runtime,
                ]
            }
        }),
{
    let ro = config.readonly_mounts@;
    let rw = config.writable_mounts@;
    lemma_bwrap_mounts_shape(ro, canon.readonly_hosts@, ro.len() as int, "readonly_mount"@, "--ro-bind"@);
    lemma_bwrap_mounts_shape(rw, canon.writable_hosts@, rw.len() as int, "writable_mount"@, "--bind"@);
    let ro_ok = forall|i: int| 0 <= i < ro.len() ==> #[trigger] mount_problem(ro, canon.readonly_hosts@, i, "readonly_mount"@) is None;
    let rw_ok = forall|i: int| 0 <= i < rw.len() ==> #[trigger] mount_problem(rw, canon.writable_hosts@, i, "writable_mount"@) is None;
    let inputs_ok = canon.work_dir is Some && canon.harness is Some && (is_absolute(runtime) ==> canon.runtime is Some);
    if inputs_ok && ro_ok && rw_ok {
        let c = canon;
        let wd = c.work_dir->Some_0;
        let hp = c.harness->Some_0;
        let rt_args = if is_absolute(runtime) {
            seq!["--ro-bind"@, c.runtime->Some_0@, c.runtime->Some_0@]
        } else {
            Seq::<Seq<char>>::empty()
        };
        let roa = spec_bwrap_mounts(ro, c.readonly_hosts@, ro.len() as int, "readonly_mount"@, "--ro-bind"@)->Ok_0;
        let rwa = spec_bwrap_mounts(rw, c.writable_hosts@, rw.len() as int, "writable_mount"@, "--bind"@)->Ok_0;
        let net = if config.allow_localhost {
            Seq::<Seq<char>>::empty()
        } else {
            seq!["--unshare-net"@]
        };
        let front = bwrap_base_args() + seq!["--ro-bind"@, wd@, wd@] + seq!["--ro-bind"@, hp@, hp@] + rt_args;
        let tail = seq!["--unshare-pid"@, "--die-with-parent"@, "--"@, runtime];
        let args = spec_bwrap_args(runtime, harness, work_dir, config, canon)->Ok_0;
        assert(args == front + roa + rwa + net + tail);
        let off: int = if is_absolute(runtime) { 29 } else { 26 };
        assert(front.len() == off);
        assert forall|i: int| 0 <= i < ro.len() implies #[trigger] args.subrange(off + 3 * i, off + 3 * i + 3) == seq![
            "--ro-bind"@,
            canon_at(canon.readonly_hosts@, i)->Some_0,
            ro[i].1@,
        ] by {
            assert(args.subrange(off + 3 * i, off + 3 * i + 3) =~= roa.subrange(3 * i, 3 * i + 3));
        }
        assert forall|i: int| 0 <= i < rw.len() implies #[trigger] args.subrange(
            off + 3 * ro.len() + 3 * i,
            off + 3 * ro.len() + 3 * i + 3,
        ) == seq!["--bind"@, canon_at(canon.writable_hosts@, i)->Some_0, rw[i].1@] by {
            assert(args.subrange(off + 3 * ro.len() + 3 * i, off + 3 * ro.len() + 3 * i + 3) =~= rwa.subrange(
                3 * i,
                3 * i + 3,
            ));
        }
        assert(args.subrange(args.len() - 4, args.len() as int) =~= tail);
    }
}

/// The argument with which a containment wrapper cuts the network off.
pub open spec fn net_isolation_flag(strategy: Strategy) -> Seq<char> {
    match strategy {
        Strategy::Unshare => "--net"@,
        Strategy::Bubblewrap => "--unshare-net"@,
        Strategy::Firejail => "--net=none"@,
        _ => Seq::empty(),
    }
}

/// Network isolation is never silently dropped: whenever localhost is not
/// allowed and the command uses a strategy that isolates the network, its
/// wrapper gets the argument that cuts the network off. Bubblewrap commands
/// moreover start from an empty tmpfs root and new PID namespaces are
/// requested by both namespace wrappers.
pub proof fn lemma_wrapper_isolation(
    plan: CommandPlan,
    runtime: Seq<char>,
    harness: Seq<char>,
    work_dir: Seq<char>,
    config: SandboxConfig,
    strategy: Strategy,
    host: HostFacts,
)
    requires
        is_command_for(plan, runtime, harness, work_dir, config, strategy, host, false),
    ensures
        !config.allow_localhost && (strategy == Strategy::Unshare || strategy == Strategy::Bubblewrap
            || strategy == Strategy::Firejail) ==> string_views(plan.args@).contains(
            net_isolation_flag(strategy),
        ),
        strategy == Strategy::Unshare ==> plan.program@ == "unshare"@ && string_views(plan.args@)[0]
            == "--pid"@,
        strategy == Strategy::Bubblewrap ==> plan.program@ == "bwrap"@ && string_views(plan.args@)[0]
            == "--tmpfs"@ && string_views(plan.args@)[1] == "/"@ && string_views(plan.args@).contains(
            "--unshare-pid"@,
        ),
        strategy == Strategy::Firejail ==> plan.program@ == "firejail"@,
{
    let args = string_views(plan.args@);
    let tail = string_views(config.runtime_args@) + seq![harness, work_dir];
    match strategy {
        Strategy::Unshare => {
            let lead = spec_unshare_args(runtime, config.allow_localhost);
            assert(args == lead + tail);
            assert(args[0] == lead[0]);
            if !config.allow_localhost {
                assert(args[5] == lead[5]);
                assert(args[5] == "--net"@);
            }
        },
        Strategy::Bubblewrap => {
            let lead = spec_bwrap_args(runtime, harness, work_dir, config, host.canonical)->Ok_0;
            assert(args == lead + tail);
            assert(args[0] == lead[0]);
            assert(args[1] == lead[1]);
            let c = host.canonical;
            let wd = c.work_dir->Some_0;
            let hp = c.harness->Some_0;
            let rt_args = if is_absolute(runtime) {
                seq!["--ro-bind"@, c.runtime->Some_0@, c.runtime->Some_0@]
            } else {
                Seq::<Seq<char>>::empty()
            };
            let ro = spec_bwrap_mounts(
                config.readonly_mounts@,
                c.readonly_hosts@,
                config.readonly_mounts@.len() as int,
                "readonly_mount"@,
                "--ro-bind"@,
            )->Ok_0;
            let rw = spec_bwrap_mounts(
                config.writable_mounts@,
                c.writable_hosts@,
                config.writable_mounts@.len() as int,
                "writable_mount"@,
                "--bind"@,
            )->Ok_0;
            let net = if config.allow_localhost {
                Seq::<Seq<char>>::empty()
            } else {
                seq!["--unshare-net"@]
            };
            let front = bwrap_base_args() + seq!["--ro-bind"@, wd@, wd@] + seq!["--ro-bind"@, hp@, hp@]
                + rt_args + ro + rw;
            assert(lead == front + net + seq!["--unshare-pid"@, "--die-with-parent"@, "--"@, runtime]);
            let k = (front.len() + net.len()) as int;
            assert(lead[k] == "--unshare-pid"@);
            assert(args[k] == lead[k]);
            if !config.allow_localhost {
                assert(lead[k - 1] == "--unshare-net"@);
                assert(args[k - 1] == lead[k - 1]);
            }
        },
        Strategy::Firejail => {
            let lead = spec_firejail_args(runtime, work_dir, config, host_nproc_limit(host, config))->Ok_0;
            assert(args == lead + tail);
            if !config.allow_localhost {
                assert(lead[13] == "--net=none"@);
                assert(args[13] == lead[13]);
            }
        },
        _ => {},
    }
}

} // verus!
