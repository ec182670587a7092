use procjail::seccomp;
use procjail::seccomp::{
    allowlist_rules, apply_seccomp_filter, build_filter, is_allowed_syscall, is_available, SeccompError,
};

#[test]
fn build_filter_unavailable_off_linux() {
    assert!(
        matches!(apply_seccomp_filter("macos", "x86_64", &Ok(())), Err(SeccompError::UnsupportedArch)),
        "seccomp must be unavailable off Linux"
    );
    assert!(matches!(apply_seccomp_filter("windows", "x86_64", &Ok(())), Err(SeccompError::UnsupportedArch)));
}

#[test]
fn build_filter_is_arch_appropriate() {
    let result = build_filter("x86_64");
    assert!(
        matches!(result, Ok(ref filter) if !filter.is_empty()),
        "expected a non-empty seccomp BPF filter on x86_64, got {result:?}"
    );
    for arch in ["aarch64", "riscv64", "arm", "x86"] {
        let result = build_filter(arch);
        assert!(
            matches!(result, Err(SeccompError::UnsupportedArch)),
            "expected UnsupportedArch on non-x86_64 Linux, got {result:?}"
        );
    }
}

#[test]
fn test_is_available() {
    assert!(is_available("linux"));
    assert!(!is_available("macos"));
    assert!(!is_available("windows"));
}

#[test]
fn linux_on_other_architectures_is_unsupported() {
    assert_eq!(apply_seccomp_filter("linux", "aarch64", &Ok(())), Err(SeccompError::UnsupportedArch));
}

#[test]
fn allowlist_matches_the_membership_test() {
    let rules = allowlist_rules();
    assert!(!rules.is_empty());
    for nr in -5i64..500 {
        assert_eq!(rules.contains_key(&nr), is_allowed_syscall(nr), "syscall {nr}");
    }
    assert!(rules.values().all(|r| r.is_empty()), "every allowed syscall runs unconditionally");
}

#[test]
fn syscall_numbers_are_those_of_x86_64() {
    let pairs: Vec<(i64, i64)> = vec![
        (seccomp::SYS_READ, libc::SYS_read),
        (seccomp::SYS_WRITE, libc::SYS_write),
        (seccomp::SYS_PREAD64, libc::SYS_pread64),
        (seccomp::SYS_PWRITE64, libc::SYS_pwrite64),
        (seccomp::SYS_CLOSE, libc::SYS_close),
        (seccomp::SYS_MMAP, libc::SYS_mmap),
        (seccomp::SYS_MPROTECT, libc::SYS_mprotect),
        (seccomp::SYS_MUNMAP, libc::SYS_munmap),
        (seccomp::SYS_BRK, libc::SYS_brk),
        (seccomp::SYS_RT_SIGACTION, libc::SYS_rt_sigaction),
        (seccomp::SYS_RT_SIGPROCMASK, libc::SYS_rt_sigprocmask),
        (seccomp::SYS_RT_SIGRETURN, libc::SYS_rt_sigreturn),
        (seccomp::SYS_PIPE, libc::SYS_pipe),
        (seccomp::SYS_PIPE2, libc::SYS_pipe2),
        (seccomp::SYS_DUP, libc::SYS_dup),
        (seccomp::SYS_DUP2, libc::SYS_dup2),
        (seccomp::SYS_DUP3, libc::SYS_dup3),
        (seccomp::SYS_FCNTL, libc::SYS_fcntl),
        (seccomp::SYS_IOCTL, libc::SYS_ioctl),
        (seccomp::SYS_ACCESS, libc::SYS_access),
        (seccomp::SYS_FACCESSAT, libc::SYS_faccessat),
        (seccomp::SYS_FACCESSAT2, libc::SYS_faccessat2),
        (seccomp::SYS_GETPID, libc::SYS_getpid),
        (seccomp::SYS_GETPPID, libc::SYS_getppid),
        (seccomp::SYS_GETUID, libc::SYS_getuid),
        (seccomp::SYS_GETEUID, libc::SYS_geteuid),
        (seccomp::SYS_GETGID, libc::SYS_getgid),
        (seccomp::SYS_GETEGID, libc::SYS_getegid),
        (seccomp::SYS_EXECVE, libc::SYS_execve),
        (seccomp::SYS_EXECVEAT, libc::SYS_execveat),
        (seccomp::SYS_FORK, libc::SYS_fork),
        (seccomp::SYS_VFORK, libc::SYS_vfork),
        (seccomp::SYS_WAIT4, libc::SYS_wait4),
        (seccomp::SYS_EXIT, libc::SYS_exit),
        (seccomp::SYS_EXIT_GROUP, libc::SYS_exit_group),
        (seccomp::SYS_CLONE, libc::SYS_clone),
        (seccomp::SYS_CLONE3, libc::SYS_clone3),
        (seccomp::SYS_FUTEX, libc::SYS_futex),
        (seccomp::SYS_SIGALTSTACK, libc::SYS_sigaltstack),
        (seccomp::SYS_SCHED_GETAFFINITY, libc::SYS_sched_getaffinity),
        (seccomp::SYS_SET_ROBUST_LIST, libc::SYS_set_robust_list),
        (seccomp::SYS_GET_ROBUST_LIST, libc::SYS_get_robust_list),
        (seccomp::SYS_RSEQ, libc::SYS_rseq),
        (seccomp::SYS_CLOCK_GETTIME, libc::SYS_clock_gettime),
        (seccomp::SYS_GETTIMEOFDAY, libc::SYS_gettimeofday),
        (seccomp::SYS_GETRANDOM, libc::SYS_getrandom),
        (seccomp::SYS_KILL, libc::SYS_kill),
        (seccomp::SYS_TKILL, libc::SYS_tkill),
        (seccomp::SYS_TGKILL, libc::SYS_tgkill),
        (seccomp::SYS_ARCH_PRCTL, libc::SYS_arch_prctl),
        (seccomp::SYS_EVENTFD, libc::SYS_eventfd),
        (seccomp::SYS_EVENTFD2, libc::SYS_eventfd2),
        (seccomp::SYS_SIGNALFD, libc::SYS_signalfd),
        (seccomp::SYS_SIGNALFD4, libc::SYS_signalfd4),
        (seccomp::SYS_TIMERFD_CREATE, libc::SYS_timerfd_create),
        (seccomp::SYS_TIMERFD_SETTIME, libc::SYS_timerfd_settime),
        (seccomp::SYS_TIMERFD_GETTIME, libc::SYS_timerfd_gettime),
        (seccomp::SYS_EPOLL_CREATE, libc::SYS_epoll_create),
        (seccomp::SYS_EPOLL_CREATE1, libc::SYS_epoll_create1),
        (seccomp::SYS_EPOLL_CTL, libc::SYS_epoll_ctl),
        (seccomp::SYS_EPOLL_WAIT, libc::SYS_epoll_wait),
        (seccomp::SYS_EPOLL_PWAIT, libc::SYS_epoll_pwait),
        (seccomp::SYS_EPOLL_PWAIT2, libc::SYS_epoll_pwait2),
        (seccomp::SYS_POLL, libc::SYS_poll),
        (seccomp::SYS_PPOLL, libc::SYS_ppoll),
        (seccomp::SYS_SELECT, libc::SYS_select),
        (seccomp::SYS_PSELECT6, libc::SYS_pselect6),
        (seccomp::SYS_UNAME, libc::SYS_uname),
        (seccomp::SYS_SYSINFO, libc::SYS_sysinfo),
        (seccomp::SYS_READLINK, libc::SYS_readlink),
        (seccomp::SYS_READLINKAT, libc::SYS_readlinkat),
        (seccomp::SYS_FSTAT, libc::SYS_fstat),
        (seccomp::SYS_NEWFSTATAT, libc::SYS_newfstatat),
        (seccomp::SYS_STAT, libc::SYS_stat),
        (seccomp::SYS_LSTAT, libc::SYS_lstat),
        (seccomp::SYS_OPEN, libc::SYS_open),
        (seccomp::SYS_OPENAT, libc::SYS_openat),
        (seccomp::SYS_LSEEK, libc::SYS_lseek),
        (seccomp::SYS_RESTART_SYSCALL, libc::SYS_restart_syscall),
        (seccomp::SYS_NANOSLEEP, libc::SYS_nanosleep),
        (seccomp::SYS_CLOCK_NANOSLEEP, libc::SYS_clock_nanosleep),
        (seccomp::SYS_GETCWD, libc::SYS_getcwd),
        (seccomp::SYS_CHDIR, libc::SYS_chdir),
        (seccomp::SYS_FCHDIR, libc::SYS_fchdir),
        (seccomp::SYS_UMASK, libc::SYS_umask),
        (seccomp::SYS_GETRLIMIT, libc::SYS_getrlimit),
        (seccomp::SYS_SETRLIMIT, libc::SYS_setrlimit),
        (seccomp::SYS_PRLIMIT64, libc::SYS_prlimit64),
        (seccomp::SYS_GETGROUPS, libc::SYS_getgroups),
        (seccomp::SYS_SET_TID_ADDRESS, libc::SYS_set_tid_address),
        (seccomp::SYS_CAPGET, libc::SYS_capget),
        (seccomp::SYS_SETUID, libc::SYS_setuid),
        (seccomp::SYS_SETGID, libc::SYS_setgid),
        (seccomp::SYS_SETRESUID, libc::SYS_setresuid),
        (seccomp::SYS_SETRESGID, libc::SYS_setresgid),
        (seccomp::SYS_PTRACE, libc::SYS_ptrace),
        (seccomp::SYS_PROCESS_VM_READV, libc::SYS_process_vm_readv),
        (seccomp::SYS_PROCESS_VM_WRITEV, libc::SYS_process_vm_writev),
        (seccomp::SYS_MOUNT, libc::SYS_mount),
        (seccomp::SYS_UMOUNT2, libc::SYS_umount2),
        (seccomp::SYS_REBOOT, libc::SYS_reboot),
        (seccomp::SYS_SWAPON, libc::SYS_swapon),
        (seccomp::SYS_SWAPOFF, libc::SYS_swapoff),
        (seccomp::SYS_KEXEC_LOAD, libc::SYS_kexec_load),
        (seccomp::SYS_KEXEC_FILE_LOAD, libc::SYS_kexec_file_load),
        (seccomp::SYS_BPF, libc::SYS_bpf),
        (seccomp::SYS_USERFAULTFD, libc::SYS_userfaultfd),
        (seccomp::SYS_PERF_EVENT_OPEN, libc::SYS_perf_event_open),
        (seccomp::SYS_SECCOMP, libc::SYS_seccomp),
        (seccomp::SYS_PRCTL, libc::SYS_prctl),
    ];
    for (ours, theirs) in pairs {
        assert_eq!(ours, theirs);
    }
    assert_eq!(seccomp::EPERM as i32, libc::EPERM);
}

#[test]
fn seccomp_error_messages() {
    assert_eq!(
        SeccompError::FilterCreation("x".to_string()).to_string(),
        "failed to create seccomp filter: x"
    );
    assert_eq!(
        SeccompError::FilterApplication("y".to_string()).to_string(),
        "failed to apply seccomp filter: y"
    );
    assert_eq!(SeccompError::UnsupportedArch.to_string(), "unsupported architecture for seccomp");
}

#[test]
fn no_new_privs_failure_is_reported_first() {
    let r = apply_seccomp_filter("linux", "x86_64", &Err("Operation not permitted (os error 1)".to_string()));
    assert_eq!(
        r,
        Err(SeccompError::FilterApplication(
            "PR_SET_NO_NEW_PRIVS failed: Operation not permitted (os error 1)".to_string()
        ))
    );
    // Off Linux nothing of the kind is attempted.
    assert_eq!(apply_seccomp_filter("macos", "x86_64", &Err("x".to_string())), Err(SeccompError::UnsupportedArch));
    // On Linux the failure comes before the architecture check.
    assert!(matches!(apply_seccomp_filter("linux", "aarch64", &Err("x".to_string())), Err(SeccompError::FilterApplication(_))));
}

#[test]
fn filter_program_is_deterministic() {
    let a = build_filter("x86_64").unwrap();
    let b = build_filter("x86_64").unwrap();
    assert_eq!(a.len(), b.len());
    // The architecture check, one load, five instructions per allowed syscall, the default.
    assert_eq!(a.len(), 3 + 1 + 5 * allowlist_rules().len() + 1);
}
