use procjail::command::{
    build_command, bwrap_args, firejail_args, nproc_limit_for_uid, path_is_absolute, pre_exec_plan, unshare_args,
    CanonicalPaths, CommandPlan, HostFacts, RlimitResource, RlimitSetting,
};
use procjail::env::{EnvOp, EnvPlan};
use procjail::error::provider_rejected;
use procjail::{BuildCommandError, EnvMode, SandboxConfig, Strategy};
use std::collections::BTreeMap;

fn canon(work: &str, harness: &str, runtime: &str, ro: usize, rw: usize) -> CanonicalPaths {
    CanonicalPaths {
        work_dir: Some(work.to_string()),
        harness: Some(harness.to_string()),
        runtime: Some(runtime.to_string()),
        readonly_hosts: (0..ro).map(|i| Some(format!("/canon/ro{i}"))).collect(),
        writable_hosts: (0..rw).map(|i| Some(format!("/canon/rw{i}"))).collect(),
    }
}

fn host(env: &[(&str, &str)], c: CanonicalPaths) -> HostFacts {
    HostFacts {
        env_vars: env.iter().map(|(k, v)| (k.to_string(), v.to_string())).collect(),
        // With the default budget of 32 processes: 681 + 32 + 64 = 777.
        uid_threads: 681,
        canonical: c,
    }
}

fn plain_host() -> HostFacts {
    host(&[("PATH", "/usr/bin")], canon("/work", "/work/h.sh", "/bin/sh", 0, 0))
}

fn build(config: &SandboxConfig, strategy: Strategy, work: &str, harness: &str) -> Result<CommandPlan, BuildCommandError> {
    build_command("sh", harness, work, config, strategy, &plain_host(), false)
}

/// The environment that the child sees: the host environment (or nothing,
/// when the plan clears it), with the plan's changes applied in order.
fn child_env(plan: &EnvPlan, host_env: &[(&str, &str)]) -> BTreeMap<String, String> {
    let mut m = BTreeMap::new();
    if !plan.clear {
        for (k, v) in host_env {
            m.insert(k.to_string(), v.to_string());
        }
    }
    for op in &plan.ops {
        match op {
            EnvOp::Remove(k) => {
                m.remove(k);
            }
            EnvOp::Assign(k, v) => {
                m.insert(k.clone(), v.clone());
            }
        }
    }
    m
}

// ---------------------------------------------------------------------------
// Inputs that are refused
// ---------------------------------------------------------------------------

#[test]
fn relative_work_dir_rejected() {
    let config = SandboxConfig::builder().runtime("sh").strategy(Strategy::Unconfined).build();
    let result = build(&config, Strategy::Unconfined, "relative/path", "/tmp/h.sh");
    assert!(result.is_err(), "relative work_dir must be rejected");
    assert!(matches!(result, Err(BuildCommandError::WorkDirNotAbsolute { ref path }) if path == "relative/path"));
}

#[test]
fn test_spawn_non_absolute_work_dir() {
    let config = SandboxConfig::builder().runtime("sh").strategy(Strategy::Unconfined).build();
    let res = build(&config, Strategy::Unconfined, "relative/path/dir", "/tmp/h.sh");
    assert!(res.is_err());
}

#[test]
fn empty_harness_path_rejected() {
    let config = SandboxConfig::builder().runtime("sh").strategy(Strategy::Unconfined).build();
    let result = build(&config, Strategy::Unconfined, "/work", "");
    assert!(result.is_err(), "empty harness path must be rejected");
    assert!(matches!(result, Err(BuildCommandError::HarnessPathEmpty)));
}

#[test]
fn test_spawn_empty_harness_path() {
    let config = SandboxConfig::builder().runtime("sh").strategy(Strategy::Unconfined).build();
    assert!(build(&config, Strategy::Unconfined, "/work", "").is_err());
}

#[test]
fn relative_harness_rejected() {
    let config = SandboxConfig::default();
    let result = build(&config, Strategy::Unconfined, "/work", "h.sh");
    assert!(matches!(result, Err(BuildCommandError::HarnessPathNotAbsolute { ref path }) if path == "h.sh"));
}

#[test]
fn custom_provider_still_requires_absolute_paths() {
    let config = SandboxConfig::builder().runtime("sh").build();
    let result = build_command("sh", "/tmp/h.sh", "relative/path", &config, Strategy::Unconfined, &plain_host(), true);
    assert!(result.is_err(), "custom provider must not bypass absolute path checks");
}

#[test]
fn env_value_size_limit_enforced() {
    let huge = "X".repeat(1024 * 64);
    let config = SandboxConfig::builder().runtime("sh").env_set("HUGE", &huge).strategy(Strategy::Unconfined).build();
    let result = build(&config, Strategy::Unconfined, "/work", "/work/h.sh");
    assert!(result.is_err(), "oversized env value must be rejected");
}

#[test]
fn test_spawn_huge_env_value() {
    let huge_value = "A".repeat(1024 * 64);
    let config =
        SandboxConfig::builder().runtime("sh").env_set("HUGE_VAR", &huge_value).strategy(Strategy::Unconfined).build();
    let res = build(&config, Strategy::Unconfined, "/work", "/work/h.sh");
    assert!(matches!(
        res,
        Err(BuildCommandError::EnvValueTooLarge { ref key, max_bytes: 32768 }) if key == "HUGE_VAR"
    ));
    let err = res.unwrap_err().to_string();
    assert!(err.contains("exceeds"));
}

#[test]
fn env_value_at_the_limit_accepted() {
    let exact = "A".repeat(32768);
    let config = SandboxConfig::builder().env_set("OK", &exact).build();
    assert!(build(&config, Strategy::Unconfined, "/work", "/work/h.sh").is_ok());
    // The limit is in bytes: 16385 two-byte characters exceed it.
    let wide = "\u{e9}".repeat(16385);
    let config = SandboxConfig::builder().env_set("WIDE", &wide).build();
    assert!(matches!(
        build(&config, Strategy::Unconfined, "/work", "/work/h.sh"),
        Err(BuildCommandError::EnvValueTooLarge { .. })
    ));
}

#[test]
fn null_byte_in_env_name_rejected() {
    let config = SandboxConfig::builder().runtime("sh").env_set("EVIL\0NAME", "value").strategy(Strategy::Unconfined).build();
    let result = build(&config, Strategy::Unconfined, "/work", "/work/h.sh");
    assert!(result.is_err(), "null byte in env name must be rejected");
}

#[test]
fn test_spawn_null_bytes_in_env() {
    let config = SandboxConfig::builder().runtime("sh").env_set("EVIL\0VAR", "value").strategy(Strategy::Unconfined).build();
    let res = build(&config, Strategy::Unconfined, "/work", "/work/h.sh");
    assert!(matches!(res, Err(BuildCommandError::InvalidEnvName { ref name }) if name == "EVIL\0VAR"));
    let err = res.unwrap_err().to_string();
    assert!(err.contains("environment variable name contains invalid characters"));
}

#[test]
fn whitespace_in_env_name_rejected() {
    let config = SandboxConfig::builder().runtime("sh").env_set("EVIL NAME", "value").strategy(Strategy::Unconfined).build();
    let result = build(&config, Strategy::Unconfined, "/work", "/work/h.sh");
    assert!(result.is_err(), "whitespace in env name must be rejected");
    let config = SandboxConfig::builder().env_set("TAB\tNAME", "v").build();
    assert!(matches!(build(&config, Strategy::Unconfined, "/work", "/work/h.sh"), Err(BuildCommandError::InvalidEnvName { .. })));
    let config = SandboxConfig::builder().env_set("A=B", "v").build();
    assert!(matches!(build(&config, Strategy::Unconfined, "/work", "/work/h.sh"), Err(BuildCommandError::InvalidEnvName { .. })));
}

#[test]
fn empty_env_name_rejected() {
    let config = SandboxConfig::builder().runtime("sh").env_set("", "value").strategy(Strategy::Unconfined).build();
    let result = build(&config, Strategy::Unconfined, "/work", "/work/h.sh");
    assert!(matches!(result, Err(BuildCommandError::EmptyEnvName)), "empty env name must be rejected");
}

#[test]
fn nul_in_env_value_rejected() {
    let config = SandboxConfig::builder().env_set("KEY", "a\0b").build();
    let result = build(&config, Strategy::Unconfined, "/work", "/work/h.sh");
    assert!(matches!(result, Err(BuildCommandError::EnvValueContainsNul { ref key }) if key == "KEY"));
}

#[test]
fn first_bad_entry_is_reported() {
    let config = SandboxConfig::builder().env_set("GOOD", "1").env_set("", "x").env_set("BAD NAME", "y").build();
    assert!(matches!(build(&config, Strategy::Unconfined, "/work", "/work/h.sh"), Err(BuildCommandError::EmptyEnvName)));
}

#[test]
fn bwrap_relative_mount_rejected() {
    let config = SandboxConfig::builder()
        .runtime("sh")
        .strategy(Strategy::Bubblewrap)
        .readonly_mount("relative/path", "/container")
        .build();
    let h = host(&[], canon("/work", "/work/h.sh", "/bin/sh", 1, 0));
    let result = build_command("sh", "/work/h.sh", "/work", &config, Strategy::Bubblewrap, &h, false);
    match result {
        Err(BuildCommandError::MountHostNotAbsolute { mount_kind, path }) => {
            assert_eq!(mount_kind, "readonly_mount");
            assert_eq!(path, "relative/path");
        }
        other => panic!("relative mount should be rejected, got {other:?}"),
    }
}

#[test]
fn firejail_relative_mount_rejected() {
    let config = SandboxConfig::builder()
        .runtime("sh")
        .strategy(Strategy::Firejail)
        .readonly_mount("relative/path", "/container")
        .build();
    let result = build(&config, Strategy::Firejail, "/work", "/work/h.sh");
    match result {
        Err(e) => {
            let msg = e.to_string();
            assert!(msg.contains("must be absolute"), "relative mount must be rejected; got: {msg}");
            assert_eq!(
                e,
                BuildCommandError::MountHostNotAbsolute { mount_kind: "readonly_mount", path: "relative/path".to_string() }
            );
        }
        Ok(_) => panic!("relative mount should be rejected"),
    }
    let config = SandboxConfig::builder()
        .runtime("sh")
        .strategy(Strategy::Firejail)
        .writable_mount("relative/path", "/container")
        .build();
    match build(&config, Strategy::Firejail, "/work", "/work/h.sh") {
        Err(BuildCommandError::MountHostNotAbsolute { mount_kind, path }) => {
            assert_eq!(mount_kind, "writable_mount");
            assert_eq!(path, "relative/path");
        }
        other => panic!("relative mount should be rejected, got {other:?}"),
    }
}

#[test]
fn bwrap_canonicalization_failure_reported() {
    let config = SandboxConfig::default();
    let mut c = canon("/work", "/work/h.sh", "/bin/sh", 0, 0);
    c.harness = None;
    let h = host(&[], c);
    let result = build_command("/bin/sh", "/work/h.sh", "/work", &config, Strategy::Bubblewrap, &h, false);
    assert!(matches!(result, Err(BuildCommandError::CanonicalizationFailed { ref path }) if path == "/work/h.sh"));
}

#[test]
fn provider_rejection_names_the_provider() {
    let e = provider_rejected("gvisor", "no kvm");
    assert_eq!(e, BuildCommandError::ProviderRejected { name: "gvisor".to_string(), reason: "no kvm".to_string() });
}

// ---------------------------------------------------------------------------
// The commands of each strategy
// ---------------------------------------------------------------------------

#[test]
fn unshare_command() {
    let config = SandboxConfig::builder().runtime_args(&["-e"]).build();
    let plan = build(&config, Strategy::Unshare, "/work", "/work/h.sh").unwrap();
    assert_eq!(plan.program, "unshare");
    assert_eq!(
        plan.args,
        vec![
            "--pid", "--fork", "--mount-proc", "--mount", "--map-root-user", "--net", "--", "sh", "-e", "/work/h.sh",
            "/work"
        ]
    );
    let open = SandboxConfig::builder().allow_localhost(true).build();
    assert!(!unshare_args("sh", &open).iter().any(|a| a == "--net"));
}

#[test]
fn bwrap_binds_harness_and_absolute_runtime() {
    let config = SandboxConfig::builder().runtime("/bin/sh").strategy(Strategy::Bubblewrap).build();
    let c = canon("/tmp/work", "/tmp/work/harness.sh", "/usr/bin/dash", 0, 0);
    let args = bwrap_args("/bin/sh", "/tmp/work/harness.sh", "/tmp/work", &config, &c).unwrap();
    let ro_bind_present = |p: &str| args.windows(3).any(|w| w[0] == "--ro-bind" && w[1] == p && w[2] == p);
    assert!(ro_bind_present("/tmp/work/harness.sh"), "harness must be --ro-bind mounted; args={args:?}");
    assert!(ro_bind_present("/usr/bin/dash"), "absolute runtime must be --ro-bind mounted; args={args:?}");
    assert!(ro_bind_present("/tmp/work"));
}

#[test]
fn bwrap_binds_system_dirs_for_bare_name_runtime() {
    let config = SandboxConfig::builder().runtime("sh").strategy(Strategy::Bubblewrap).build();
    let c = canon("/tmp/work", "/tmp/work/harness.sh", "/unused", 0, 0);
    let args = bwrap_args("sh", "/tmp/work/harness.sh", "/tmp/work", &config, &c).unwrap();
    assert!(args.windows(3).any(|w| w[0] == "--ro-bind" && w[1] == "/usr" && w[2] == "/usr"));
    for d in ["/bin", "/lib", "/lib64"] {
        assert!(args.windows(3).any(|w| w[0] == "--ro-bind-try" && w[1] == d && w[2] == d), "{d}; args={args:?}");
    }
    assert!(!args.iter().any(|a| a == "/unused"), "a bare runtime name is not bound");
}

#[test]
fn bwrap_full_command() {
    let config = SandboxConfig::builder()
        .readonly_mount("/data", "/mnt/data")
        .writable_mount("/out", "/mnt/out")
        .build();
    let h = host(&[], canon("/w", "/w/h.js", "/usr/bin/node", 1, 1));
    let plan = build_command("/usr/bin/node", "/w/h.js", "/w", &config, Strategy::Bubblewrap, &h, false).unwrap();
    assert_eq!(plan.program, "bwrap");
    assert_eq!(
        plan.args,
        vec![
            "--tmpfs", "/", "--tmpfs", "/tmp", "--proc", "/proc", "--dev", "/dev", "--ro-bind", "/usr", "/usr",
            "--ro-bind-try", "/bin", "/bin", "--ro-bind-try", "/lib", "/lib", "--ro-bind-try", "/lib64", "/lib64",
            "--ro-bind", "/w", "/w", "--ro-bind", "/w/h.js", "/w/h.js", "--ro-bind", "/usr/bin/node",
            "/usr/bin/node", "--ro-bind", "/canon/ro0", "/mnt/data", "--bind", "/canon/rw0", "/mnt/out",
            "--unshare-net", "--unshare-pid", "--die-with-parent", "--", "/usr/bin/node", "/w/h.js", "/w"
        ]
    );
}

#[test]
fn firejail_command() {
    let config = SandboxConfig::builder()
        .max_memory_bytes(1000)
        .max_fds(10)
        .timeout_seconds(125)
        .readonly_mount("/data", "/ignored")
        .writable_mount("/out", "/ignored")
        .build();
    let args = firejail_args("node", "/w", &config, 99).unwrap();
    assert_eq!(
        args,
        vec![
            "--quiet", "--noprofile", "--noroot", "--nosound", "--no3d", "--nodvd", "--nonewprivs", "--seccomp",
            "--private=/w", "--rlimit-as=1000", "--rlimit-nofile=10", "--rlimit-nproc=99", "--timeout=00:02:05",
            "--net=none", "--whitelist=/data", "--read-only=/data", "--whitelist=/out", "--", "node"
        ]
    );
    let open = SandboxConfig::builder().allow_localhost(true).timeout_seconds(7).build();
    let args = firejail_args("node", "/w", &open, 1).unwrap();
    assert!(!args.iter().any(|a| a == "--net=none"));
    assert!(args.iter().any(|a| a == "--timeout=00:00:07"));
}

#[test]
fn rlimits_only_runs_the_runtime_directly() {
    let config = SandboxConfig::builder().runtime_args(&["-x"]).build();
    for s in [Strategy::RlimitsOnly, Strategy::Unconfined] {
        let plan = build(&config, s, "/work", "/work/h.sh").unwrap();
        assert_eq!(plan.program, "sh");
        assert_eq!(plan.args, vec!["-x", "/work/h.sh", "/work"]);
        assert!(!plan.provider_hook);
    }
}

#[test]
fn custom_provider_gets_runtime_args_and_harness() {
    let config = SandboxConfig::builder().runtime_args(&["--flag"]).build();
    let plan =
        build_command("/usr/bin/node", "/w/h.js", "/w", &config, Strategy::Firejail, &plain_host(), true).unwrap();
    assert_eq!(plan.program, "/usr/bin/node");
    assert_eq!(plan.args, vec!["--flag", "/w/h.js"]);
    assert!(plan.provider_hook);
    assert!(plan.pre_exec.seccomp);
}

#[test]
fn every_command_gets_the_full_pre_exec_isolation() {
    let config = SandboxConfig::builder().max_memory_bytes(5).max_cpu_seconds(6).max_fds(7).build();
    for s in [Strategy::Unshare, Strategy::Firejail, Strategy::RlimitsOnly, Strategy::Unconfined] {
        let plan = build(&config, s, "/work", "/work/h.sh").unwrap();
        assert!(plan.pre_exec.close_inherited_fds);
        assert!(plan.pre_exec.seccomp);
        assert_eq!(
            plan.pre_exec.rlimits,
            vec![
                RlimitSetting { resource: RlimitResource::AddressSpace, limit: 5 },
                RlimitSetting { resource: RlimitResource::CpuTime, limit: 6 },
                RlimitSetting { resource: RlimitResource::OpenFiles, limit: 7 },
                RlimitSetting { resource: RlimitResource::Processes, limit: 777 },
            ]
        );
    }
    assert_eq!(pre_exec_plan(&config, 3).rlimits[3].limit, 3);
}

#[test]
fn nproc_limit_comes_from_the_user_threads() {
    let config = SandboxConfig::builder().max_processes(10).build();
    let plan = build(&config, Strategy::Unconfined, "/work", "/work/h.sh").unwrap();
    assert_eq!(plan.pre_exec.rlimits[3], RlimitSetting { resource: RlimitResource::Processes, limit: 681 + 10 + 64 });
    let plan = build(&config, Strategy::Firejail, "/work", "/work/h.sh").unwrap();
    assert!(plan.args.iter().any(|a| a == "--rlimit-nproc=755"));
    assert!(plan.new_process_group);
}

#[test]
fn nproc_limit_adds_headroom_and_saturates() {
    assert_eq!(nproc_limit_for_uid(100, 32), 196);
    assert_eq!(nproc_limit_for_uid(0, 0), 64);
    assert_eq!(nproc_limit_for_uid(u64::MAX - 10, 5), u64::MAX);
    assert_eq!(nproc_limit_for_uid(5, u64::MAX), u64::MAX);
}

#[test]
fn absolute_paths() {
    assert!(path_is_absolute("/"));
    assert!(path_is_absolute("/usr/bin"));
    assert!(!path_is_absolute(""));
    assert!(!path_is_absolute("usr/bin"));
    assert!(!path_is_absolute("./x"));
}

// ---------------------------------------------------------------------------
// The environment of the child
// ---------------------------------------------------------------------------

#[test]
fn env_set_cannot_override_secret_stripping() {
    let host_env = [("GITHUB_TOKEN", "super_secret"), ("HOME", "/home/u")];
    let config = SandboxConfig::builder()
        .runtime("sh")
        .strategy(Strategy::Unconfined)
        .env_strip_secrets(true)
        .env_set("GITHUB_TOKEN", "attacker_value")
        .build();
    let h = host(&host_env, canon("/work", "/work/h.sh", "/bin/sh", 0, 0));
    let plan = build_command("sh", "/work/h.sh", "/work", &config, Strategy::Unconfined, &h, false).unwrap();
    let env = child_env(&plan.env, &host_env);
    assert!(!env.contains_key("GITHUB_TOKEN"), "env_set must not bypass secret stripping");
    assert_eq!(env.get("HOME").map(String::as_str), Some("/home/u"));
    assert_eq!(plan.env.blocked, vec!["GITHUB_TOKEN".to_string()]);
}

#[test]
fn allowlist_mode_cannot_resurrect_secrets() {
    let host_env = [("OPENAI_API_KEY", "sk-secret"), ("LANG", "C"), ("HOME", "/h")];
    let config = SandboxConfig::builder()
        .runtime("sh")
        .strategy(Strategy::Unconfined)
        .env_mode(EnvMode::Allowlist)
        .env_passthrough(&["OPENAI_API_KEY", "LANG"])
        .build();
    let h = host(&host_env, canon("/work", "/work/h.sh", "/bin/sh", 0, 0));
    let plan = build_command("sh", "/work/h.sh", "/work", &config, Strategy::Unconfined, &h, false).unwrap();
    assert!(plan.env.clear);
    let env = child_env(&plan.env, &host_env);
    assert!(!env.contains_key("OPENAI_API_KEY"), "allowlist must not resurrect secrets via passthrough");
    assert_eq!(env.get("LANG").map(String::as_str), Some("C"));
    assert!(!env.contains_key("HOME"), "only passthrough variables survive the allowlist");
}

#[test]
fn control_variables_are_always_set() {
    let host_env = [("SANTH_MAX_FDS", "999999")];
    let config = SandboxConfig::builder()
        .max_memory_bytes(100)
        .max_cpu_seconds(2)
        .max_fds(3)
        .max_processes(4)
        .env_set("SANTH_MAX_CPU", "1000")
        .build();
    let h = host(&host_env, canon("/work", "/work/h.sh", "/bin/sh", 0, 0));
    let plan = build_command("sh", "/work/h.sh", "/work", &config, Strategy::Unconfined, &h, false).unwrap();
    let env = child_env(&plan.env, &host_env);
    assert_eq!(env.get("SANTH_MAX_MEMORY").map(String::as_str), Some("100"));
    assert_eq!(env.get("SANTH_MAX_CPU").map(String::as_str), Some("2"));
    assert_eq!(env.get("SANTH_MAX_FDS").map(String::as_str), Some("3"));
    assert_eq!(env.get("SANTH_MAX_PROCESSES").map(String::as_str), Some("4"));
    assert_eq!(env.get("SANTH_WORK_DIR").map(String::as_str), Some("/work"));
}

#[test]
fn strip_modes_remove_secrets_and_keep_the_rest() {
    let host_env = [("AWS_SECRET_ACCESS_KEY", "k"), ("CUSTOM", "c"), ("KEEP", "k")];
    for mode in [EnvMode::StripSecrets, EnvMode::Blocklist] {
        let config = SandboxConfig::builder().env_mode(mode).env_strip(&["CUSTOM"]).build();
        let h = host(&host_env, canon("/work", "/work/h.sh", "/bin/sh", 0, 0));
        let plan = build_command("sh", "/work/h.sh", "/work", &config, Strategy::Unconfined, &h, false).unwrap();
        assert!(!plan.env.clear);
        let env = child_env(&plan.env, &host_env);
        assert!(!env.contains_key("AWS_SECRET_ACCESS_KEY"));
        assert!(!env.contains_key("CUSTOM"));
        assert_eq!(env.get("KEEP").map(String::as_str), Some("k"));
    }
}
