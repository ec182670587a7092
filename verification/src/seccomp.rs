//! The seccomp BPF filter applied to every sandboxed process before exec.
//!
//! The filter is an allowlist: the syscalls listed in [`spec_allowed_syscalls`]
//! run unconditionally, every other syscall fails with `EPERM`. Dangerous
//! syscalls such as `ptrace`, `mount`, `bpf`, `seccomp` and `prctl` are
//! therefore refused without killing the process, which lets the sandboxed
//! runtime handle the failure.

use std::collections::BTreeMap;
use vstd::prelude::*;
use crate::text::{concat, str_eq};

verus! {

/// `seccompiler::SeccompRule`, carried opaquely: a rule on a syscall's arguments.
#[verifier::external_type_specification]
#[verifier::external_body]
pub struct ExSeccompRule(seccompiler::SeccompRule);

/// `seccompiler::sock_filter`, carried opaquely: one BPF instruction.
#[verifier::external_type_specification]
#[verifier::external_body]
pub struct ExSockFilter(seccompiler::sock_filter);

/// `seccompiler::BackendError`, carried opaquely: an error of building a filter.
#[verifier::external_type_specification]
#[verifier::external_body]
pub struct ExBackendError(seccompiler::BackendError);

/// `seccompiler::Error`, carried opaquely: an error of installing a filter.
#[verifier::external_type_specification]
#[verifier::external_body]
pub struct ExSeccompError(seccompiler::Error);

/// x86_64 number of `read`.
pub const SYS_READ: i64 = 0;
/// x86_64 number of `write`.
pub const SYS_WRITE: i64 = 1;
/// x86_64 number of `pread64`.
pub const SYS_PREAD64: i64 = 17;
/// x86_64 number of `pwrite64`.
pub const SYS_PWRITE64: i64 = 18;
/// x86_64 number of `close`.
pub const SYS_CLOSE: i64 = 3;
/// x86_64 number of `mmap`.
pub const SYS_MMAP: i64 = 9;
/// x86_64 number of `mprotect`.
pub const SYS_MPROTECT: i64 = 10;
/// x86_64 number of `munmap`.
pub const SYS_MUNMAP: i64 = 11;
/// x86_64 number of `brk`.
pub const SYS_BRK: i64 = 12;
/// x86_64 number of `rt_sigaction`.
pub const SYS_RT_SIGACTION: i64 = 13;
/// x86_64 number of `rt_sigprocmask`.
pub const SYS_RT_SIGPROCMASK: i64 = 14;
/// x86_64 number of `rt_sigreturn`.
pub const SYS_RT_SIGRETURN: i64 = 15;
/// x86_64 number of `pipe`.
pub const SYS_PIPE: i64 = 22;
/// x86_64 number of `pipe2`.
pub const SYS_PIPE2: i64 = 293;
/// x86_64 number of `dup`.
pub const SYS_DUP: i64 = 32;
/// x86_64 number of `dup2`.
pub const SYS_DUP2: i64 = 33;
/// x86_64 number of `dup3`.
pub const SYS_DUP3: i64 = 292;
/// x86_64 number of `fcntl`.
pub const SYS_FCNTL: i64 = 72;
/// x86_64 number of `ioctl`.
pub const SYS_IOCTL: i64 = 16;
/// x86_64 number of `access`.
pub const SYS_ACCESS: i64 = 21;
/// x86_64 number of `faccessat`.
pub const SYS_FACCESSAT: i64 = 269;
/// x86_64 number of `faccessat2`.
pub const SYS_FACCESSAT2: i64 = 439;
/// x86_64 number of `getpid`.
pub const SYS_GETPID: i64 = 39;
/// x86_64 number of `getppid`.
pub const SYS_GETPPID: i64 = 110;
/// x86_64 number of `getuid`.
pub const SYS_GETUID: i64 = 102;
/// x86_64 number of `geteuid`.
pub const SYS_GETEUID: i64 = 107;
/// x86_64 number of `getgid`.
pub const SYS_GETGID: i64 = 104;
/// x86_64 number of `getegid`.
pub const SYS_GETEGID: i64 = 108;
/// x86_64 number of `execve`.
pub const SYS_EXECVE: i64 = 59;
/// x86_64 number of `execveat`.
pub const SYS_EXECVEAT: i64 = 322;
/// x86_64 number of `fork`.
pub const SYS_FORK: i64 = 57;
/// x86_64 number of `vfork`.
pub const SYS_VFORK: i64 = 58;
/// x86_64 number of `wait4`.
pub const SYS_WAIT4: i64 = 61;
/// x86_64 number of `exit`.
pub const SYS_EXIT: i64 = 60;
/// x86_64 number of `exit_group`.
pub const SYS_EXIT_GROUP: i64 = 231;
/// x86_64 number of `clone`.
pub const SYS_CLONE: i64 = 56;
/// x86_64 number of `clone3`.
pub const SYS_CLONE3: i64 = 435;
/// x86_64 number of `futex`.
pub const SYS_FUTEX: i64 = 202;
/// x86_64 number of `sigaltstack`.
pub const SYS_SIGALTSTACK: i64 = 131;
/// x86_64 number of `sched_getaffinity`.
pub const SYS_SCHED_GETAFFINITY: i64 = 204;
/// x86_64 number of `set_robust_list`.
pub const SYS_SET_ROBUST_LIST: i64 = 273;
/// x86_64 number of `get_robust_list`.
pub const SYS_GET_ROBUST_LIST: i64 = 274;
/// x86_64 number of `rseq`.
pub const SYS_RSEQ: i64 = 334;
/// x86_64 number of `clock_gettime`.
pub const SYS_CLOCK_GETTIME: i64 = 228;
/// x86_64 number of `gettimeofday`.
pub const SYS_GETTIMEOFDAY: i64 = 96;
/// x86_64 number of `getrandom`.
pub const SYS_GETRANDOM: i64 = 318;
/// x86_64 number of `kill`.
pub const SYS_KILL: i64 = 62;
/// x86_64 number of `tkill`.
pub const SYS_TKILL: i64 = 200;
/// x86_64 number of `tgkill`.
pub const SYS_TGKILL: i64 = 234;
/// x86_64 number of `arch_prctl`.
pub const SYS_ARCH_PRCTL: i64 = 158;
/// x86_64 number of `eventfd`.
pub const SYS_EVENTFD: i64 = 284;
/// x86_64 number of `eventfd2`.
pub const SYS_EVENTFD2: i64 = 290;
/// x86_64 number of `signalfd`.
pub const SYS_SIGNALFD: i64 = 282;
/// x86_64 number of `signalfd4`.
pub const SYS_SIGNALFD4: i64 = 289;
/// x86_64 number of `timerfd_create`.
pub const SYS_TIMERFD_CREATE: i64 = 283;
/// x86_64 number of `timerfd_settime`.
pub const SYS_TIMERFD_SETTIME: i64 = 286;
/// x86_64 number of `timerfd_gettime`.
pub const SYS_TIMERFD_GETTIME: i64 = 287;
/// x86_64 number of `epoll_create`.
pub const SYS_EPOLL_CREATE: i64 = 213;
/// x86_64 number of `epoll_create1`.
pub const SYS_EPOLL_CREATE1: i64 = 291;
/// x86_64 number of `epoll_ctl`.
pub const SYS_EPOLL_CTL: i64 = 233;
/// x86_64 number of `epoll_wait`.
pub const SYS_EPOLL_WAIT: i64 = 232;
/// x86_64 number of `epoll_pwait`.
pub const SYS_EPOLL_PWAIT: i64 = 281;
/// x86_64 number of `epoll_pwait2`.
pub const SYS_EPOLL_PWAIT2: i64 = 441;
/// x86_64 number of `poll`.
pub const SYS_POLL: i64 = 7;
/// x86_64 number of `ppoll`.
pub const SYS_PPOLL: i64 = 271;
/// x86_64 number of `select`.
pub const SYS_SELECT: i64 = 23;
/// x86_64 number of `pselect6`.
pub const SYS_PSELECT6: i64 = 270;
/// x86_64 number of `uname`.
pub const SYS_UNAME: i64 = 63;
/// x86_64 number of `sysinfo`.
pub const SYS_SYSINFO: i64 = 99;
/// x86_64 number of `readlink`.
pub const SYS_READLINK: i64 = 89;
/// x86_64 number of `readlinkat`.
pub const SYS_READLINKAT: i64 = 267;
/// x86_64 number of `fstat`.
pub const SYS_FSTAT: i64 = 5;
/// x86_64 number of `newfstatat`.
pub const SYS_NEWFSTATAT: i64 = 262;
/// x86_64 number of `stat`.
pub const SYS_STAT: i64 = 4;
/// x86_64 number of `lstat`.
pub const SYS_LSTAT: i64 = 6;
/// x86_64 number of `open`.
pub const SYS_OPEN: i64 = 2;
/// x86_64 number of `openat`.
pub const SYS_OPENAT: i64 = 257;
/// x86_64 number of `lseek`.
pub const SYS_LSEEK: i64 = 8;
/// x86_64 number of `restart_syscall`.
pub const SYS_RESTART_SYSCALL: i64 = 219;
/// x86_64 number of `nanosleep`.
pub const SYS_NANOSLEEP: i64 = 35;
/// x86_64 number of `clock_nanosleep`.
pub const SYS_CLOCK_NANOSLEEP: i64 = 230;
/// x86_64 number of `getcwd`.
pub const SYS_GETCWD: i64 = 79;
/// x86_64 number of `chdir`.
pub const SYS_CHDIR: i64 = 80;
/// x86_64 number of `fchdir`.
pub const SYS_FCHDIR: i64 = 81;
/// x86_64 number of `umask`.
pub const SYS_UMASK: i64 = 95;
/// x86_64 number of `getrlimit`.
pub const SYS_GETRLIMIT: i64 = 97;
/// x86_64 number of `setrlimit`.
pub const SYS_SETRLIMIT: i64 = 160;
/// x86_64 number of `prlimit64`.
pub const SYS_PRLIMIT64: i64 = 302;
/// x86_64 number of `getgroups`.
pub const SYS_GETGROUPS: i64 = 115;
/// x86_64 number of `set_tid_address`.
pub const SYS_SET_TID_ADDRESS: i64 = 218;
/// x86_64 number of `capget`.
pub const SYS_CAPGET: i64 = 125;
/// x86_64 number of `setuid`.
pub const SYS_SETUID: i64 = 105;
/// x86_64 number of `setgid`.
pub const SYS_SETGID: i64 = 106;
/// x86_64 number of `setresuid`.
pub const SYS_SETRESUID: i64 = 117;
/// x86_64 number of `setresgid`.
pub const SYS_SETRESGID: i64 = 119;
/// x86_64 number of `ptrace`.
pub const SYS_PTRACE: i64 = 101;
/// x86_64 number of `process_vm_readv`.
pub const SYS_PROCESS_VM_READV: i64 = 310;
/// x86_64 number of `process_vm_writev`.
pub const SYS_PROCESS_VM_WRITEV: i64 = 311;
/// x86_64 number of `mount`.
pub const SYS_MOUNT: i64 = 165;
/// x86_64 number of `umount2`.
pub const SYS_UMOUNT2: i64 = 166;
/// x86_64 number of `reboot`.
pub const SYS_REBOOT: i64 = 169;
/// x86_64 number of `swapon`.
pub const SYS_SWAPON: i64 = 167;
/// x86_64 number of `swapoff`.
pub const SYS_SWAPOFF: i64 = 168;
/// x86_64 number of `kexec_load`.
pub const SYS_KEXEC_LOAD: i64 = 246;
/// x86_64 number of `kexec_file_load`.
pub const SYS_KEXEC_FILE_LOAD: i64 = 320;
/// x86_64 number of `bpf`.
pub const SYS_BPF: i64 = 321;
/// x86_64 number of `userfaultfd`.
pub const SYS_USERFAULTFD: i64 = 323;
/// x86_64 number of `perf_event_open`.
pub const SYS_PERF_EVENT_OPEN: i64 = 298;
/// x86_64 number of `seccomp`.
pub const SYS_SECCOMP: i64 = 317;
/// x86_64 number of `prctl`.
pub const SYS_PRCTL: i64 = 157;

/// `EPERM`, the error that refused syscalls return.
pub const EPERM: u32 = 1;

/// The syscalls that the filter allows.
pub open spec fn spec_allowed_syscalls() -> Set<i64> {
    set![
        SYS_READ,
        SYS_WRITE,
        SYS_PREAD64,
        SYS_PWRITE64,
        SYS_CLOSE,
        SYS_MMAP,
        SYS_MPROTECT,
        SYS_MUNMAP,
        SYS_BRK,
        SYS_RT_SIGACTION,
        SYS_RT_SIGPROCMASK,
        SYS_RT_SIGRETURN,
        SYS_PIPE,
        SYS_PIPE2,
        SYS_DUP,
        SYS_DUP2,
        SYS_DUP3,
        SYS_FCNTL,
        SYS_IOCTL,
        SYS_ACCESS,
        SYS_FACCESSAT,
        SYS_FACCESSAT2,
        SYS_GETPID,
        SYS_GETPPID,
        SYS_GETUID,
        SYS_GETEUID,
        SYS_GETGID,
        SYS_GETEGID,
        SYS_EXECVE,
        SYS_EXECVEAT,
        SYS_FORK,
        SYS_VFORK,
        SYS_WAIT4,
        SYS_EXIT,
        SYS_EXIT_GROUP,
        SYS_CLONE,
        SYS_CLONE3,
        SYS_FUTEX,
        SYS_SIGALTSTACK,
        SYS_SCHED_GETAFFINITY,
        SYS_SET_ROBUST_LIST,
        SYS_GET_ROBUST_LIST,
        SYS_RSEQ,
        SYS_CLOCK_GETTIME,
        SYS_GETTIMEOFDAY,
        SYS_GETRANDOM,
        SYS_KILL,
        SYS_TKILL,
        SYS_TGKILL,
        SYS_ARCH_PRCTL,
        SYS_EVENTFD,
        SYS_EVENTFD2,
        SYS_SIGNALFD,
        SYS_SIGNALFD4,
        SYS_TIMERFD_CREATE,
        SYS_TIMERFD_SETTIME,
        SYS_TIMERFD_GETTIME,
        SYS_EPOLL_CREATE,
        SYS_EPOLL_CREATE1,
        SYS_EPOLL_CTL,
        SYS_EPOLL_WAIT,
        SYS_EPOLL_PWAIT,
        SYS_EPOLL_PWAIT2,
        SYS_POLL,
        SYS_PPOLL,
        SYS_SELECT,
        SYS_PSELECT6,
        SYS_UNAME,
        SYS_SYSINFO,
        SYS_READLINK,
        SYS_READLINKAT,
        SYS_FSTAT,
        SYS_NEWFSTATAT,
        SYS_STAT,
        SYS_LSTAT,
        SYS_OPEN,
        SYS_OPENAT,
        SYS_LSEEK,
        SYS_RESTART_SYSCALL,
        SYS_NANOSLEEP,
        SYS_CLOCK_NANOSLEEP,
        SYS_GETCWD,
        SYS_CHDIR,
        SYS_FCHDIR,
        SYS_UMASK,
        SYS_GETRLIMIT,
        SYS_SETRLIMIT,
        SYS_PRLIMIT64,
        SYS_GETGROUPS,
        SYS_SET_TID_ADDRESS,
        SYS_CAPGET,
        SYS_SETUID,
        SYS_SETGID,
        SYS_SETRESUID,
        SYS_SETRESGID
    ]
}

/// Syscalls that the filter refuses by design: they are absent from the
/// allowlist, so they fail with `EPERM` like every unlisted syscall.
pub open spec fn spec_blocked_syscalls() -> Set<i64> {
    set![
        SYS_PTRACE,
        SYS_PROCESS_VM_READV,
        SYS_PROCESS_VM_WRITEV,
        SYS_MOUNT,
        SYS_UMOUNT2,
        SYS_REBOOT,
        SYS_SWAPON,
        SYS_SWAPOFF,
        SYS_KEXEC_LOAD,
        SYS_KEXEC_FILE_LOAD,
        SYS_BPF,
        SYS_USERFAULTFD,
        SYS_PERF_EVENT_OPEN
    ]
}

/// Whether the filter lets syscall number `nr` run.
pub fn is_allowed_syscall(nr: i64) -> (r: bool)
    ensures
        r == spec_allowed_syscalls().contains(nr),
{
    match nr {
        SYS_READ | SYS_WRITE | SYS_PREAD64 | SYS_PWRITE64 | SYS_CLOSE | SYS_MMAP | SYS_MPROTECT | SYS_MUNMAP | SYS_BRK | SYS_RT_SIGACTION | SYS_RT_SIGPROCMASK | SYS_RT_SIGRETURN | SYS_PIPE | SYS_PIPE2 | SYS_DUP | SYS_DUP2 | SYS_DUP3 | SYS_FCNTL | SYS_IOCTL | SYS_ACCESS | SYS_FACCESSAT | SYS_FACCESSAT2 | SYS_GETPID | SYS_GETPPID | SYS_GETUID | SYS_GETEUID | SYS_GETGID | SYS_GETEGID | SYS_EXECVE | SYS_EXECVEAT | SYS_FORK | SYS_VFORK | SYS_WAIT4 | SYS_EXIT | SYS_EXIT_GROUP | SYS_CLONE | SYS_CLONE3 | SYS_FUTEX | SYS_SIGALTSTACK | SYS_SCHED_GETAFFINITY | SYS_SET_ROBUST_LIST | SYS_GET_ROBUST_LIST | SYS_RSEQ | SYS_CLOCK_GETTIME | SYS_GETTIMEOFDAY | SYS_GETRANDOM | SYS_KILL | SYS_TKILL | SYS_TGKILL | SYS_ARCH_PRCTL | SYS_EVENTFD | SYS_EVENTFD2 | SYS_SIGNALFD | SYS_SIGNALFD4 | SYS_TIMERFD_CREATE | SYS_TIMERFD_SETTIME | SYS_TIMERFD_GETTIME | SYS_EPOLL_CREATE | SYS_EPOLL_CREATE1 | SYS_EPOLL_CTL | SYS_EPOLL_WAIT | SYS_EPOLL_PWAIT | SYS_EPOLL_PWAIT2 | SYS_POLL | SYS_PPOLL | SYS_SELECT | SYS_PSELECT6 | SYS_UNAME | SYS_SYSINFO | SYS_READLINK | SYS_READLINKAT | SYS_FSTAT | SYS_NEWFSTATAT | SYS_STAT | SYS_LSTAT | SYS_OPEN | SYS_OPENAT | SYS_LSEEK | SYS_RESTART_SYSCALL | SYS_NANOSLEEP | SYS_CLOCK_NANOSLEEP | SYS_GETCWD | SYS_CHDIR | SYS_FCHDIR | SYS_UMASK | SYS_GETRLIMIT | SYS_SETRLIMIT | SYS_PRLIMIT64 | SYS_GETGROUPS | SYS_SET_TID_ADDRESS | SYS_CAPGET | SYS_SETUID | SYS_SETGID | SYS_SETRESUID | SYS_SETRESGID => true,
        _ => false,
    }
}

/// The filter refuses every syscall that is blocked by design, among them
/// `seccomp` (no nested filters) and `prctl` (no `PR_SET_SECCOMP`, no
/// ambient capabilities), and it allows `fcntl`, which standard I/O needs.
pub proof fn lemma_allowlist_refuses_dangerous_syscalls()
    ensures
        spec_blocked_syscalls().disjoint(spec_allowed_syscalls()),
        !spec_allowed_syscalls().contains(SYS_SECCOMP),
        !spec_allowed_syscalls().contains(SYS_PRCTL),
        spec_allowed_syscalls().contains(SYS_FCNTL),
{
    assert forall|nr: i64| spec_blocked_syscalls().contains(nr) implies !spec_allowed_syscalls().contains(nr) by {
    }
}

/// The syscalls that a runtime needs to start and run once the filter is in
/// place (it is installed before exec): basic I/O, memory, signals, process
/// control, threading, file descriptors, process information, time, and
/// `kill`.
pub open spec fn spec_runtime_syscalls() -> Set<i64> {
    set![
        SYS_READ,
        SYS_WRITE,
        SYS_CLOSE,
        SYS_MMAP,
        SYS_MPROTECT,
        SYS_MUNMAP,
        SYS_BRK,
        SYS_RT_SIGACTION,
        SYS_RT_SIGPROCMASK,
        SYS_EXECVE,
        SYS_WAIT4,
        SYS_EXIT,
        SYS_EXIT_GROUP,
        SYS_CLONE,
        SYS_FUTEX,
        SYS_SET_ROBUST_LIST,
        SYS_PIPE,
        SYS_DUP,
        SYS_DUP2,
        SYS_IOCTL,
        SYS_GETPID,
        SYS_GETUID,
        SYS_ACCESS,
        SYS_CLOCK_GETTIME,
        SYS_GETRANDOM,
        SYS_KILL
    ]
}

/// The filter lets a runtime run: every syscall that a runtime needs to be
/// executed and to run (among them `execve`, `wait4`, `exit`, `exit_group`,
/// `clone`, `futex` and `set_robust_list`) is allowed, so none of them fails
/// with `EPERM` under the filter.
pub proof fn lemma_allowlist_lets_runtimes_run()
    ensures
        spec_runtime_syscalls().subset_of(spec_allowed_syscalls()),
        spec_allowed_syscalls().contains(SYS_EXECVE),
        SYS_EXECVE == 59,
{
    assert forall|nr: i64| spec_runtime_syscalls().contains(nr) implies spec_allowed_syscalls().contains(nr) by {
    }
}

/// The rule chains of the filter: one unconditional (empty) chain per allowed syscall.
pub open spec fn unconditional_rules(m: Map<i64, Vec<seccompiler::SeccompRule>>) -> bool {
    forall|k: i64| m.contains_key(k) ==> (#[trigger] m[k])@.len() == 0
}

/// Every syscall number of the rule map fits in the 32 bits that a BPF
/// comparison holds.
pub open spec fn syscall_numbers_fit(m: Map<i64, Vec<seccompiler::SeccompRule>>) -> bool {
    forall|k: i64| #[trigger] m.contains_key(k) ==> 0 <= k <= u32::MAX
}

/// Adds `nr` to the allowlist with an empty rule chain, which matches unconditionally.
fn allow_syscall(rules: &mut BTreeMap<i64, Vec<seccompiler::SeccompRule>>, nr: i64)
    requires
        unconditional_rules(old(rules)@),
        syscall_numbers_fit(old(rules)@),
        0 <= nr <= u32::MAX,
    ensures
        final(rules)@.dom() == old(rules)@.dom().insert(nr),
        unconditional_rules(final(rules)@),
        syscall_numbers_fit(final(rules)@),
        final(rules)@.len() <= old(rules)@.len() + 1,
{
    proof {
        broadcast use vstd::std_specs::btree::axiom_btree_map_view_finite_dom;
        assert(old(rules)@.dom().finite());
    }
    rules.insert(nr, Vec::new());
}

/// The rule map of the filter: exactly the allowed syscalls, each with an
/// unconditional rule chain.
pub fn allowlist_rules() -> (rules: BTreeMap<i64, Vec<seccompiler::SeccompRule>>)
    ensures
        rules@.dom() == spec_allowed_syscalls(),
        unconditional_rules(rules@),
        syscall_numbers_fit(rules@),
        rules@.len() <= 100,
{
    let mut rules: BTreeMap<i64, Vec<seccompiler::SeccompRule>> = BTreeMap::new();
    assert(rules@.dom() =~= Set::<i64>::empty());
    allow_syscall(&mut rules, SYS_READ);
    allow_syscall(&mut rules, SYS_WRITE);
    allow_syscall(&mut rules, SYS_PREAD64);
    allow_syscall(&mut rules, SYS_PWRITE64);
    allow_syscall(&mut rules, SYS_CLOSE);
    allow_syscall(&mut rules, SYS_MMAP);
    allow_syscall(&mut rules, SYS_MPROTECT);
    allow_syscall(&mut rules, SYS_MUNMAP);
    allow_syscall(&mut rules, SYS_BRK);
    allow_syscall(&mut rules, SYS_RT_SIGACTION);
    allow_syscall(&mut rules, SYS_RT_SIGPROCMASK);
    allow_syscall(&mut rules, SYS_RT_SIGRETURN);
    allow_syscall(&mut rules, SYS_PIPE);
    allow_syscall(&mut rules, SYS_PIPE2);
    allow_syscall(&mut rules, SYS_DUP);
    allow_syscall(&mut rules, SYS_DUP2);
    allow_syscall(&mut rules, SYS_DUP3);
    allow_syscall(&mut rules, SYS_FCNTL);
    allow_syscall(&mut rules, SYS_IOCTL);
    allow_syscall(&mut rules, SYS_ACCESS);
    allow_syscall(&mut rules, SYS_FACCESSAT);
    allow_syscall(&mut rules, SYS_FACCESSAT2);
    allow_syscall(&mut rules, SYS_GETPID);
    allow_syscall(&mut rules, SYS_GETPPID);
    allow_syscall(&mut rules, SYS_GETUID);
    allow_syscall(&mut rules, SYS_GETEUID);
    allow_syscall(&mut rules, SYS_GETGID);
    allow_syscall(&mut rules, SYS_GETEGID);
    allow_syscall(&mut rules, SYS_EXECVE);
    allow_syscall(&mut rules, SYS_EXECVEAT);
    allow_syscall(&mut rules, SYS_FORK);
    allow_syscall(&mut rules, SYS_VFORK);
    allow_syscall(&mut rules, SYS_WAIT4);
    allow_syscall(&mut rules, SYS_EXIT);
    allow_syscall(&mut rules, SYS_EXIT_GROUP);
    allow_syscall(&mut rules, SYS_CLONE);
    allow_syscall(&mut rules, SYS_CLONE3);
    allow_syscall(&mut rules, SYS_FUTEX);
    allow_syscall(&mut rules, SYS_SIGALTSTACK);
    allow_syscall(&mut rules, SYS_SCHED_GETAFFINITY);
    allow_syscall(&mut rules, SYS_SET_ROBUST_LIST);
    allow_syscall(&mut rules, SYS_GET_ROBUST_LIST);
    allow_syscall(&mut rules, SYS_RSEQ);
    allow_syscall(&mut rules, SYS_CLOCK_GETTIME);
    allow_syscall(&mut rules, SYS_GETTIMEOFDAY);
    allow_syscall(&mut rules, SYS_GETRANDOM);
    allow_syscall(&mut rules, SYS_KILL);
    allow_syscall(&mut rules, SYS_TKILL);
    allow_syscall(&mut rules, SYS_TGKILL);
    allow_syscall(&mut rules, SYS_ARCH_PRCTL);
    allow_syscall(&mut rules, SYS_EVENTFD);
    allow_syscall(&mut rules, SYS_EVENTFD2);
    allow_syscall(&mut rules, SYS_SIGNALFD);
    allow_syscall(&mut rules, SYS_SIGNALFD4);
    allow_syscall(&mut rules, SYS_TIMERFD_CREATE);
    allow_syscall(&mut rules, SYS_TIMERFD_SETTIME);
    allow_syscall(&mut rules, SYS_TIMERFD_GETTIME);
    allow_syscall(&mut rules, SYS_EPOLL_CREATE);
    allow_syscall(&mut rules, SYS_EPOLL_CREATE1);
    allow_syscall(&mut rules, SYS_EPOLL_CTL);
    allow_syscall(&mut rules, SYS_EPOLL_WAIT);
    allow_syscall(&mut rules, SYS_EPOLL_PWAIT);
    allow_syscall(&mut rules, SYS_EPOLL_PWAIT2);
    allow_syscall(&mut rules, SYS_POLL);
    allow_syscall(&mut rules, SYS_PPOLL);
    allow_syscall(&mut rules, SYS_SELECT);
    allow_syscall(&mut rules, SYS_PSELECT6);
    allow_syscall(&mut rules, SYS_UNAME);
    allow_syscall(&mut rules, SYS_SYSINFO);
    allow_syscall(&mut rules, SYS_READLINK);
    allow_syscall(&mut rules, SYS_READLINKAT);
    allow_syscall(&mut rules, SYS_FSTAT);
    allow_syscall(&mut rules, SYS_NEWFSTATAT);
    allow_syscall(&mut rules, SYS_STAT);
    allow_syscall(&mut rules, SYS_LSTAT);
    allow_syscall(&mut rules, SYS_OPEN);
    allow_syscall(&mut rules, SYS_OPENAT);
    allow_syscall(&mut rules, SYS_LSEEK);
    allow_syscall(&mut rules, SYS_RESTART_SYSCALL);
    allow_syscall(&mut rules, SYS_NANOSLEEP);
    allow_syscall(&mut rules, SYS_CLOCK_NANOSLEEP);
    allow_syscall(&mut rules, SYS_GETCWD);
    allow_syscall(&mut rules, SYS_CHDIR);
    allow_syscall(&mut rules, SYS_FCHDIR);
    allow_syscall(&mut rules, SYS_UMASK);
    allow_syscall(&mut rules, SYS_GETRLIMIT);
    allow_syscall(&mut rules, SYS_SETRLIMIT);
    allow_syscall(&mut rules, SYS_PRLIMIT64);
    allow_syscall(&mut rules, SYS_GETGROUPS);
    allow_syscall(&mut rules, SYS_SET_TID_ADDRESS);
    allow_syscall(&mut rules, SYS_CAPGET);
    allow_syscall(&mut rules, SYS_SETUID);
    allow_syscall(&mut rules, SYS_SETGID);
    allow_syscall(&mut rules, SYS_SETRESUID);
    allow_syscall(&mut rules, SYS_SETRESGID);
    rules
}

/// Errors of building or installing the seccomp filter.
#[derive(Clone, Debug, PartialEq, Eq)]
pub enum SeccompError {
    /// The filter could not be created or compiled to BPF.
    FilterCreation(String),
    /// The filter could not be installed.
    FilterApplication(String),
    /// The platform or architecture has no seccomp support here.
    UnsupportedArch,
}

/// The message of a [`SeccompError`].
pub open spec fn spec_seccomp_error_text(e: SeccompError) -> Seq<char> {
    match e {
        SeccompError::FilterCreation(m) => "failed to create seccomp filter: "@ + m@,
        SeccompError::FilterApplication(m) => "failed to apply seccomp filter: "@ + m@,
        SeccompError::UnsupportedArch => "unsupported architecture for seccomp"@,
    }
}

impl SeccompError {
    /// The message of the error (what `Display` shows).
    pub fn to_string(&self) -> (r: String)
        ensures
            r@ == spec_seccomp_error_text(*self),
    {
        match self {
            SeccompError::FilterCreation(m) => concat("failed to create seccomp filter: ", m.as_str()),
            SeccompError::FilterApplication(m) => concat("failed to apply seccomp filter: ", m.as_str()),
            SeccompError::UnsupportedArch => String::from_str("unsupported architecture for seccomp"),
        }
    }
}

/// What a syscall gets from the filter.
#[derive(Clone, Copy, Debug, PartialEq, Eq, Structural)]
pub enum FilterAction {
    /// The syscall runs.
    Allow,
    /// The syscall fails with this error number.
    Errno(u32),
}

/// An architecture for which `seccompiler` compiles filters.
#[derive(Clone, Copy, Debug, PartialEq, Eq, Structural)]
pub enum Arch {
    /// x86_64.
    X86_64,
    /// aarch64.
    Aarch64,
    /// riscv64.
    Riscv64,
}

/// The BPF program that `seccompiler` compiles for a filter whose rule map
/// holds an unconditional chain for each syscall of `allowed`: syscalls of
/// `allowed` get `on_match`, every other syscall gets `mismatch`, and a
/// caller of another architecture than `arch` is killed.
pub uninterp spec fn seccomp_program(
    allowed: Set<i64>,
    mismatch: FilterAction,
    on_match: FilterAction,
    arch: Arch,
) -> Seq<seccompiler::sock_filter>;

/// Creates a filter (`SeccompFilter::new`) and compiles it to BPF
/// (`TryFrom<SeccompFilter> for BpfProgram`). With unconditional chains, the
/// program depends on the set of syscall numbers only, as the map is walked
/// in key order. `SeccompFilter::new` refuses only identical actions; the
/// compilation unwraps each syscall number into a `u32` and refuses programs
/// of 4096 instructions or more, and a map of at most 800 syscalls compiles
/// to at most 4005. The program starts with the architecture check, so it is
/// never empty.
#[verifier::external_body]
fn compile_allowlist(
    rules: BTreeMap<i64, Vec<seccompiler::SeccompRule>>,
    mismatch: FilterAction,
    on_match: FilterAction,
    arch: Arch,
) -> (r: Result<seccompiler::BpfProgram, seccompiler::BackendError>)
    requires
        unconditional_rules(rules@),
        syscall_numbers_fit(rules@),
        rules@.len() <= 800,
        mismatch != on_match,
    ensures
        r is Ok,
        r->Ok_0@ == seccomp_program(rules@.dom(), mismatch, on_match, arch),
        r->Ok_0@.len() > 0,
{
    let action = |a: FilterAction| match a {
        FilterAction::Allow => seccompiler::SeccompAction::Allow,
        FilterAction::Errno(e) => seccompiler::SeccompAction::Errno(e),
    };
    let target = match arch {
        Arch::X86_64 => seccompiler::TargetArch::x86_64,
        Arch::Aarch64 => seccompiler::TargetArch::aarch64,
        Arch::Riscv64 => seccompiler::TargetArch::riscv64,
    };
    seccompiler::SeccompFilter::new(rules, action(mismatch), action(on_match), target)?.try_into()
}

/// Installs a BPF program on every thread of the calling process
/// (`seccompiler::apply_filter_all_threads`), after setting
/// `PR_SET_NO_NEW_PRIVS`. Whether the kernel accepts it is not stated.
/// The library installs no other program than its allowlist filter, so the
/// program handed in must be that one.
#[verifier::external_body]
fn install_filter(program: &seccompiler::BpfProgram) -> (r: Result<(), seccompiler::Error>)
    requires
        program@ == spec_filter_program(),
{
    seccompiler::apply_filter_all_threads(program)
}

/// The architectures for which a filter can be built.
pub open spec fn spec_arch(arch: Seq<char>) -> Option<Arch> {
    if arch == "x86_64"@ {
        Some(Arch::X86_64)
    } else if arch == "aarch64"@ {
        Some(Arch::Aarch64)
    } else if arch == "riscv64"@ {
        Some(Arch::Riscv64)
    } else {
        None
    }
}

/// The BPF target for an architecture name.
fn detect_arch(arch: &str) -> (r: Result<Arch, SeccompError>)
    ensures
        match spec_arch(arch@) {
            Some(a) => r == Ok::<Arch, SeccompError>(a),
            None => r == Err::<Arch, SeccompError>(SeccompError::UnsupportedArch),
        },
{
    if str_eq(arch, "x86_64") {
        Ok(Arch::X86_64)
    } else if str_eq(arch, "aarch64") {
        Ok(Arch::Aarch64)
    } else if str_eq(arch, "riscv64") {
        Ok(Arch::Riscv64)
    } else {
        Err(SeccompError::UnsupportedArch)
    }
}

/// The program of the sandbox's filter: the allowed syscalls run, every other
/// syscall fails with `EPERM`, on x86_64.
pub open spec fn spec_filter_program() -> Seq<seccompiler::sock_filter> {
    seccomp_program(spec_allowed_syscalls(), FilterAction::Errno(EPERM), FilterAction::Allow, Arch::X86_64)
}

/// Builds the allowlist filter as a BPF program for the architecture named
/// `arch`. The allowlist holds x86_64 syscall numbers, so only `x86_64` is
/// supported; there the program is that of the allowlist, with `Allow` for
/// the allowed syscalls and `EPERM` for all others.
pub fn build_filter(arch: &str) -> (r: Result<seccompiler::BpfProgram, SeccompError>)
    ensures
        arch@ != "x86_64"@ ==> r == Err::<seccompiler::BpfProgram, SeccompError>(
            SeccompError::UnsupportedArch,
        ),
        arch@ == "x86_64"@ ==> (r matches Ok(p) && p@ == spec_filter_program() && p@.len() > 0),
{
    if !str_eq(arch, "x86_64") {
        return Err(SeccompError::UnsupportedArch);
    }
    let target = match detect_arch(arch) {
        Ok(t) => t,
        Err(e) => return Err(e),
    };
    proof {
        reveal_strlit("x86_64");
        reveal_strlit("aarch64");
        reveal_strlit("riscv64");
    }
    assert(target == Arch::X86_64);
    let rules = allowlist_rules();
    match compile_allowlist(rules, FilterAction::Errno(EPERM), FilterAction::Allow, target) {
        Ok(p) => Ok(p),
        Err(e) => {
            let msg = e.to_string();
            Err(SeccompError::FilterCreation(concat("BPF compilation failed: ", msg.as_str())))
        },
    }
}

/// Applies the allowlist filter to the calling process, on the platform
/// named by `os` and the architecture named by `arch`. On Linux the caller
/// first sets `PR_SET_NO_NEW_PRIVS` (which seccomp requires of unprivileged
/// processes) and hands in the outcome, `Err` with the OS error's message if
/// it failed.
///
/// Seccomp exists on Linux only, and the allowlist is written for x86_64:
/// elsewhere this fails with `UnsupportedArch`, and a failed
/// `PR_SET_NO_NEW_PRIVS` is reported before anything is built. On Linux
/// x86_64 the allowlist program is built, which always succeeds, and then
/// installed on every thread; the program installed is the allowlist
/// program, and the kernel decides whether the installation succeeds.
pub fn apply_seccomp_filter(os: &str, arch: &str, no_new_privs: &Result<(), String>) -> (r: Result<(), SeccompError>)
    ensures
        os@ != "linux"@ ==> r == Err::<(), SeccompError>(SeccompError::UnsupportedArch),
        os@ == "linux"@ ==> (no_new_privs matches Err(m) ==> (r matches Err(SeccompError::FilterApplication(t))
            && t@ == "PR_SET_NO_NEW_PRIVS failed: "@ + m@)),
        os@ == "linux"@ && no_new_privs is Ok && arch@ != "x86_64"@ ==> r == Err::<(), SeccompError>(
            SeccompError::UnsupportedArch,
        ),
        os@ == "linux"@ && no_new_privs is Ok && arch@ == "x86_64"@ ==> (r is Ok || r matches Err(
            SeccompError::FilterApplication(_),
        )),
{
    if !str_eq(os, "linux") {
        return Err(SeccompError::UnsupportedArch);
    }
    match no_new_privs {
        Err(m) => {
            return Err(SeccompError::FilterApplication(concat("PR_SET_NO_NEW_PRIVS failed: ", m.as_str())));
        },
        Ok(()) => {},
    }
    let program = match build_filter(arch) {
        Ok(p) => p,
        Err(e) => return Err(e),
    };
    match install_filter(&program) {
        Ok(()) => Ok(()),
        Err(e) => Err(SeccompError::FilterApplication(e.to_string())),
    }
}

/// Whether seccomp filtering is available on the platform named `os`: Linux only.
pub fn is_available(os: &str) -> (r: bool)
    ensures
        r == (os@ == "linux"@),
{
    str_eq(os, "linux")
}

} // verus!
