use procjail::process::{
    after_pidfd_signal, cgroup_limits_failed_message, cgroup_name, exit_code, join_path, kill_target,
    on_cgroup_unavailable, pidfd_target, program_not_found_message, runtime_not_found_message,
    sandbox_limit_writes, spawn_failure_context, validate_spawn_inputs, watchdog_needed, watchdog_steps,
    AfterPidfdSignal, CgroupFallback, CgroupSetupError, CgroupV2, SpawnInputError, WatchdogAction,
};
use procjail::process::{first_executable, which_candidates};
use procjail::procfs::{parse_single_number, peak_memory_bytes_for_process, stat_cpu_fields, threads_of_uid};
use procjail::{BpfInstruction, ProcjailSandbox, Strategy};

const STATUS: &str = "Name:\tnode\nUmask:\t0022\nState:\tS (sleeping)\nPid:\t4242\nUid:\t1000\t1000\t1000\t1000\nGid:\t1000\t1000\t1000\t1000\nVmPeak:\t  123456 kB\nVmSize:\t  120000 kB\nThreads:\t7\n";

#[test]
fn which_candidates_follow_path_order() {
    let c = which_candidates("node", Some("/usr/local/bin:/usr/bin/:"));
    assert_eq!(c, vec!["/usr/local/bin/node", "/usr/bin/node", "node"]);
    assert!(which_candidates("node", None).is_empty());
}

#[test]
fn absolute_runtime_is_tried_first() {
    let c = which_candidates("/bin/sh", Some("/usr/bin"));
    assert_eq!(c, vec!["/bin/sh", "/bin/sh"]);
    assert_eq!(which_candidates("/tmp", None), vec!["/tmp"]);
}

#[test]
fn join_follows_path_rules() {
    assert_eq!(join_path("/a", "b"), "/a/b");
    assert_eq!(join_path("/a/", "b"), "/a/b");
    assert_eq!(join_path("", "b"), "b");
    assert_eq!(join_path("/a", "/b"), "/b");
}

#[test]
fn runtime_not_found_text() {
    assert_eq!(
        runtime_not_found_message("nodejs"),
        "runtime 'nodejs' not found in PATH. Fix: install the runtime or set `runtime_path` to an absolute executable path."
    );
}

#[test]
fn zero_recv_limit_rejected_at_spawn() {
    let r = validate_spawn_inputs("/tmp/h.sh", "/tmp", true, true, true, 0);
    assert!(matches!(r, Err(SpawnInputError::ZeroRecvLimit)), "zero recv limit must be rejected");
    assert_eq!(r.unwrap_err().message(), "max_recv_line_bytes must be greater than zero");
}

#[test]
fn spawn_nonexistent_harness() {
    let r = validate_spawn_inputs("/nonexistent/harness.js", "/tmp", true, false, false, 10);
    match r {
        Err(e @ SpawnInputError::HarnessMissing { .. }) => assert_eq!(
            e.message(),
            "harness_path must exist, got: /nonexistent/harness.js. Fix: create the harness file first or point procjail at an existing script."
        ),
        other => panic!("expected a missing harness, got {other:?}"),
    }
}

#[test]
fn spawn_inputs_are_checked_in_order() {
    assert!(matches!(
        validate_spawn_inputs("/h", "/nope", false, false, false, 0),
        Err(SpawnInputError::WorkDirNotDirectory { ref path }) if path == "/nope"
    ));
    assert!(matches!(
        validate_spawn_inputs("/dir", "/w", true, true, false, 0),
        Err(SpawnInputError::HarnessNotFile { ref path }) if path == "/dir"
    ));
    assert!(validate_spawn_inputs("/h", "/w", true, true, true, 1).is_ok());
    assert_eq!(
        SpawnInputError::WorkDirNotDirectory { path: "/x".to_string() }.message(),
        "work_dir must be an existing directory, got: /x. Fix: pass a real working directory for the sandbox process."
    );
    assert_eq!(
        SpawnInputError::HarnessNotFile { path: "/d".to_string() }.message(),
        "harness_path must be a file, got: /d. Fix: pass a regular file path instead of a directory or device."
    );
}

#[test]
fn missing_program_messages() {
    let m = program_not_found_message(Strategy::Bubblewrap, "/usr/bin/node", "/w/h.js", "/w");
    assert_eq!(
        m,
        "could not start bubblewrap sandbox. Fix: bwrap not available \u{2014} install bubblewrap. Runtime looked up as '/usr/bin/node', harness '/w/h.js', work dir '/w'."
    );
    assert!(program_not_found_message(Strategy::Unshare, "a", "b", "c").contains("install util-linux"));
    assert!(program_not_found_message(Strategy::Firejail, "a", "b", "c").contains("firejail not available"));
    assert!(program_not_found_message(Strategy::Unconfined, "a", "b", "c").contains("runtime executable not found"));
    assert_eq!(spawn_failure_context(Strategy::RlimitsOnly), "spawning sandboxed rlimits-only process");
}

#[test]
fn cgroup_of_a_process() {
    assert_eq!(cgroup_name(4242), "procjail-4242");
    let cg = CgroupV2::new("procjail-4242", true, true).unwrap();
    assert_eq!(cg.path, "/sys/fs/cgroup/procjail/procjail-4242");
    assert_eq!(CgroupV2::new("x", false, true).unwrap_err(), CgroupSetupError::NotMounted);
    assert_eq!(CgroupV2::new("x", true, false).unwrap_err(), CgroupSetupError::VersionOneOnly);
    assert!(CgroupSetupError::VersionOneOnly.message().starts_with("cgroups v1 detected"));
    assert!(CgroupSetupError::NotMounted.message().starts_with("cgroups v2 not mounted"));
}

#[test]
fn cgroup_limit_writes_in_order() {
    let cg = CgroupV2::new("procjail-7", true, true).unwrap();
    let w: Vec<(String, String)> =
        sandbox_limit_writes(&cg, 268435456, 32, 7).into_iter().map(|w| (w.file, w.content)).collect();
    let d = "/sys/fs/cgroup/procjail/procjail-7";
    assert_eq!(
        w,
        vec![
            (format!("{d}/memory.max"), "268435456".to_string()),
            (format!("{d}/memory.swap.max"), "0".to_string()),
            (format!("{d}/cpu.max"), "100000 100000".to_string()),
            (format!("{d}/pids.max"), "32".to_string()),
            (format!("{d}/cgroup.procs"), "7".to_string()),
        ]
    );
    let k = cg.kill_all();
    assert_eq!((k.file.as_str(), k.content.as_str()), ("/sys/fs/cgroup/procjail/procjail-7/cgroup.kill", "1"));
    assert_eq!(cg.memory_peak_file(), "/sys/fs/cgroup/procjail/procjail-7/memory.peak");
    assert_eq!(cg.set_cpu_limit(5, 10).content, "5 10");
}

#[test]
fn cgroup_unavailable_fails_closed_only_when_required() {
    match on_cgroup_unavailable(true, "permission denied") {
        CgroupFallback::FailClosed { message } => {
            assert_eq!(message, "cgroup v2 hardware limits required but unavailable: permission denied")
        }
        other => panic!("expected failure, got {other:?}"),
    }
    match on_cgroup_unavailable(false, "permission denied") {
        CgroupFallback::RunWithoutLimits { warning } => assert!(warning.contains("WITHOUT memory/CPU/pids")),
        other => panic!("expected a warning, got {other:?}"),
    }
    assert_eq!(cgroup_limits_failed_message("EBUSY"), "failed to apply cgroup limits: EBUSY");
}

#[test]
fn kill_targets_the_process_group() {
    assert_eq!(kill_target(0), None);
    assert_eq!(kill_target(1234), Some(-1234));
    assert_eq!(kill_target(i32::MAX as u32), Some(-i32::MAX));
    assert_eq!(kill_target(i32::MAX as u32 + 1), None);
    assert_eq!(kill_target(u32::MAX), None);
    assert_eq!(pidfd_target(0), None);
    assert_eq!(pidfd_target(77), Some(77));
    assert_eq!(pidfd_target(u32::MAX), None);
}

#[test]
fn pidfd_signal_outcomes() {
    assert_eq!(after_pidfd_signal(true, false), AfterPidfdSignal::Delivered);
    assert_eq!(after_pidfd_signal(false, true), AfterPidfdSignal::ProcessGone);
    assert_eq!(after_pidfd_signal(false, false), AfterPidfdSignal::FallBackToGroupKill);
}

#[test]
fn watchdog_decisions() {
    assert!(!watchdog_needed(0, 30));
    assert!(!watchdog_needed(10, 0));
    assert!(watchdog_needed(10, 30));
    assert!(watchdog_steps(true, true, true).is_empty());
    assert_eq!(
        watchdog_steps(false, true, true),
        vec![WatchdogAction::MarkTimedOut, WatchdogAction::KillCgroup, WatchdogAction::KillViaPidfd]
    );
    assert_eq!(watchdog_steps(false, false, false), vec![WatchdogAction::MarkTimedOut, WatchdogAction::KillProcessGroup]);
}

#[test]
fn exit_codes() {
    assert_eq!(exit_code(Some(0), None), 0);
    assert_eq!(exit_code(Some(3), Some(9)), 3);
    assert_eq!(exit_code(None, Some(9)), 137);
    assert_eq!(exit_code(None, None), -1);
}

#[test]
fn peak_memory_from_status() {
    assert_eq!(peak_memory_bytes_for_process(STATUS), Some(123456 * 1024));
    assert_eq!(peak_memory_bytes_for_process("Name:\tx\n"), None);
    assert_eq!(peak_memory_bytes_for_process("VmPeak:\n"), None);
    assert_eq!(peak_memory_bytes_for_process("VmPeak:\tlots kB\n"), None);
    assert_eq!(peak_memory_bytes_for_process("VmPeak: 18446744073709551615 kB\n"), Some(u64::MAX));
}

#[test]
fn threads_counted_for_the_owner_only() {
    assert_eq!(threads_of_uid(STATUS, 1000), 7);
    assert_eq!(threads_of_uid(STATUS, 0), 0);
    assert_eq!(threads_of_uid("Uid:\t5\nThreads:\tmany\n", 5), 0);
    assert_eq!(threads_of_uid("Threads:\t3\n", 5), 0);
}

#[test]
fn single_numbers() {
    assert_eq!(parse_single_number("1048576\n"), Some(1048576));
    assert_eq!(parse_single_number("  42  "), Some(42));
    assert_eq!(parse_single_number("max\n"), None);
    assert_eq!(parse_single_number(""), None);
}

#[test]
fn bpf_program_length() {
    let ins = BpfInstruction { code: 6, jt: 0, jf: 0, k: 0x7fff0000 };
    assert_eq!(ProcjailSandbox::program_len(&[ins, ins, ins]), Some(3));
    assert_eq!(ProcjailSandbox::program_len(&[]), Some(0));
    assert_eq!(ProcjailSandbox::program_len(&vec![ins; 65535]), Some(65535));
    assert_eq!(ProcjailSandbox::program_len(&vec![ins; 65536]), None);
}

#[test]
fn first_executable_candidate() {
    assert_eq!(first_executable(&vec![false, true, true]), Some(1));
    assert_eq!(first_executable(&vec![true]), Some(0));
    assert_eq!(first_executable(&vec![false, false]), None);
    assert_eq!(first_executable(&vec![]), None);
}

#[test]
fn cpu_fields_of_stat() {
    let stat = "4242 (node) S 1 4242 4242 0 -1 4194560 1234 0 0 0 150 37 0 0 20 0 11 0 98765 123456789 4321 18446744073709551615";
    assert_eq!(stat_cpu_fields(stat), Some(("150".to_string(), "37".to_string())));
    assert_eq!(stat_cpu_fields("4242 (node) S 1 2 3"), None);
    assert_eq!(stat_cpu_fields("no parenthesis here"), None);
    // The command name ends at the last ")".
    let odd = "7 (a) b) S 1 2 3 4 5 6 7 8 9 10 11 12 13 14 15";
    assert_eq!(stat_cpu_fields(odd), Some(("11".to_string(), "12".to_string())));
}

#[test]
fn command_name_cannot_shift_cpu_fields() {
    // A program named "x) 1 2 3" must not move the CPU time fields.
    let stat = "4242 (x) 1 2 3) S 1 4242 4242 0 -1 4194560 1234 0 0 0 150 37 0 0 20 0 11 0 98765 123456789 4321 18446744073709551615";
    assert_eq!(stat_cpu_fields(stat), Some(("150".to_string(), "37".to_string())));
    assert_eq!(stat_cpu_fields("4242 (x) y) S 1 2 3"), None);
}
