use procjail::config::default_secret_env_vars;
use procjail::process::quick_spawn_config;
use procjail::{EnvMode, SandboxConfig, SandboxConfigBuilder, Strategy, DEFAULT_SECRET_ENV_VARS};
use std::collections::HashSet;

fn set_of(v: &[String]) -> HashSet<String> {
    v.iter().cloned().collect()
}

#[test]
fn default_config() {
    let config = SandboxConfig::default();
    assert_eq!(config.max_memory_bytes, 256 * 1024 * 1024);
    assert_eq!(config.max_cpu_seconds, 30);
    assert_eq!(config.max_fds, 64);
    assert!(!config.allow_localhost);
    assert!(config.env_strip_secrets);
    assert_eq!(config.timeout_seconds, 60);
}

#[test]
fn builder_works() {
    let config = SandboxConfig::builder()
        .runtime("/usr/bin/python3")
        .max_memory_mb(512)
        .max_cpu_seconds(60)
        .max_fds(128)
        .max_processes(64)
        .allow_localhost(true)
        .env_passthrough(&["HOME", "PATH"])
        .env_set("MY_VAR", "my_value")
        .env_strip_secrets(true)
        .env_strip(&["CUSTOM_SECRET"])
        .timeout_seconds(120)
        .capture_stderr(true)
        .build();

    assert_eq!(config.runtime_path, "/usr/bin/python3");
    assert_eq!(config.max_memory_bytes, 512 * 1024 * 1024);
    assert_eq!(config.max_cpu_seconds, 60);
    assert_eq!(config.max_fds, 128);
    assert_eq!(config.max_processes, 64);
    assert!(config.allow_localhost);
    assert!(config.env_passthrough.contains(&"HOME".to_string()));
    assert!(config.env_passthrough.contains(&"PATH".to_string()));
    assert_eq!(config.env_set[0], ("MY_VAR".into(), "my_value".into()));
    assert!(config.env_strip.contains(&"CUSTOM_SECRET".to_string()));
    assert_eq!(config.timeout_seconds, 120);
    assert!(config.capture_stderr);
    assert_eq!(config.max_recv_line_bytes, 1024 * 1024);
}

#[test]
fn test_sandbox_config_builder_methods() {
    let config = SandboxConfig::builder()
        .runtime("my-runtime")
        .runtime_args(&["--flag", "value"])
        .max_memory_mb(512)
        .max_cpu_seconds(120)
        .max_fds(1024)
        .max_disk_mb(100)
        .max_processes(10)
        .allow_localhost(true)
        .env_passthrough(&["FOO", "BAR"])
        .env_set("CUSTOM", "value")
        .env_strip_secrets(false)
        .env_strip(&["STRIP_ME"])
        .env_mode(EnvMode::Blocklist)
        .strategy(Strategy::Bubblewrap)
        .readonly_mount("/ro/host", "/ro/container")
        .writable_mount("/rw/host", "/rw/container")
        .timeout_seconds(300)
        .capture_stderr(true)
        .max_recv_line_bytes(2048)
        .build();

    assert_eq!(config.runtime_path, "my-runtime");
    assert_eq!(config.runtime_args, vec!["--flag", "value"]);
    assert_eq!(config.max_memory_bytes, 512 * 1024 * 1024);
    assert_eq!(config.max_cpu_seconds, 120);
    assert_eq!(config.max_fds, 1024);
    assert_eq!(config.max_disk_bytes, 100 * 1024 * 1024);
    assert_eq!(config.max_processes, 10);
    assert!(config.allow_localhost);

    let passthrough: HashSet<String> = ["FOO".to_string(), "BAR".to_string()].into_iter().collect();
    assert_eq!(set_of(&config.env_passthrough), passthrough);
    assert_eq!(config.env_set, vec![("CUSTOM".to_string(), "value".to_string())]);
    assert!(!config.env_strip_secrets);

    let strip: HashSet<String> = ["STRIP_ME".to_string()].into_iter().collect();
    assert_eq!(set_of(&config.env_strip), strip);

    assert_eq!(config.env_mode, EnvMode::Blocklist);
    assert_eq!(config.force_strategy, Some(Strategy::Bubblewrap));
    assert_eq!(config.readonly_mounts, vec![("/ro/host".to_string(), "/ro/container".to_string())]);
    assert_eq!(config.writable_mounts, vec![("/rw/host".to_string(), "/rw/container".to_string())]);
    assert_eq!(config.timeout_seconds, 300);
    assert!(config.capture_stderr);
    assert_eq!(config.max_recv_line_bytes, 2048);
}

#[test]
fn defaults_to_not_requiring_hardware_limits() {
    assert!(
        !SandboxConfig::default().require_hardware_limits,
        "default must be false for compatibility with cgroup-less hosts"
    );
}

#[test]
fn builder_sets_require_hardware_limits() {
    let config = SandboxConfig::builder().require_hardware_limits(true).build();
    assert!(config.require_hardware_limits);
    let config = SandboxConfig::builder().require_hardware_limits(false).build();
    assert!(!config.require_hardware_limits);
}

#[test]
fn passthrough_and_strip_are_sets() {
    let config = SandboxConfig::builder()
        .env_passthrough(&["A", "B", "A"])
        .env_passthrough(&["B", "C"])
        .env_strip(&["X", "X"])
        .build();
    // A second passthrough list replaces the first; strip names accumulate.
    assert_eq!(config.env_passthrough.len(), 2);
    assert_eq!(set_of(&config.env_passthrough), ["B", "C"].iter().map(|s| s.to_string()).collect());
    let once = SandboxConfig::builder().env_passthrough(&["A", "B", "A"]).build();
    assert_eq!(once.env_passthrough.len(), 2);
    assert_eq!(config.env_strip, vec!["X".to_string()]);
    let twice = SandboxConfig::builder().env_strip(&["X"]).env_strip(&["Y", "X"]).build();
    assert_eq!(set_of(&twice.env_strip), ["X", "Y"].iter().map(|s| s.to_string()).collect());
}

#[test]
fn memory_and_disk_are_given_in_mebibytes() {
    let config = SandboxConfig::builder().max_memory_mb(3).max_disk_mb(7).build();
    assert_eq!(config.max_memory_bytes, 3 * 1048576);
    assert_eq!(config.max_disk_bytes, 7 * 1048576);
    let config = SandboxConfig::builder().max_memory_bytes(12345).build();
    assert_eq!(config.max_memory_bytes, 12345);
}

#[test]
fn secrets_are_recognised() {
    let config = SandboxConfig::default();
    assert!(config.is_secret_env_var("GITHUB_TOKEN"));
    assert!(config.is_secret_env_var("AWS_ANYTHING"));
    assert!(config.is_secret_env_var("GCP_KEY"));
    assert!(config.is_secret_env_var("AZURE_CLIENT_SECRET"));
    assert!(!config.is_secret_env_var("HOME"));
    assert!(!config.is_secret_env_var("PATH"));
    let custom = SandboxConfig::builder().env_strip(&["MY_SECRET"]).build();
    assert!(custom.is_secret_env_var("MY_SECRET"));
    let off = SandboxConfig::builder().env_strip_secrets(false).env_strip(&["MY_SECRET"]).build();
    assert!(!off.is_secret_env_var("GITHUB_TOKEN"));
    assert!(!off.is_secret_env_var("AWS_ACCESS_KEY_ID"));
    assert!(off.is_secret_env_var("MY_SECRET"));
}

#[test]
fn stripped_env_vars_lists_each_name_once() {
    let config = SandboxConfig::builder().env_strip(&["MY_SECRET", "GITHUB_TOKEN"]).build();
    let names = config.stripped_env_vars();
    let set: HashSet<String> = names.iter().cloned().collect();
    assert_eq!(set.len(), names.len());
    assert!(set.contains("MY_SECRET"));
    for s in DEFAULT_SECRET_ENV_VARS {
        assert!(set.contains(s));
    }
    assert_eq!(set.len(), DEFAULT_SECRET_ENV_VARS.len() + 1);
    let off = SandboxConfig::builder().env_strip_secrets(false).env_strip(&["ONLY"]).build();
    assert_eq!(off.stripped_env_vars(), vec!["ONLY".to_string()]);
}

#[test]
fn default_secret_list() {
    assert_eq!(DEFAULT_SECRET_ENV_VARS.len(), 36);
    assert_eq!(default_secret_env_vars(), DEFAULT_SECRET_ENV_VARS.to_vec());
    assert!(DEFAULT_SECRET_ENV_VARS.contains(&"OPENAI_API_KEY"));
    assert!(DEFAULT_SECRET_ENV_VARS.contains(&"SSH_AUTH_SOCK"));
}

#[test]
fn env_mode_names() {
    assert_eq!(EnvMode::StripSecrets.to_string(), "strip-secrets");
    assert_eq!(EnvMode::Allowlist.to_string(), "allowlist");
    assert_eq!(EnvMode::Blocklist.to_string(), "blocklist");
}

#[test]
fn config_text() {
    let config = SandboxConfig::default();
    assert_eq!(config.to_string(), "SandboxConfig(runtime=node, timeout_seconds=60, strategy=auto)");
    let b = SandboxConfig::builder().runtime("/bin/sh").timeout_seconds(5).strategy(Strategy::Firejail);
    assert_eq!(b.to_string(), "SandboxConfigBuilder(SandboxConfig(runtime=/bin/sh, timeout_seconds=5, strategy=firejail))");
    assert_eq!(
        b.build().to_string(),
        "SandboxConfig(runtime=/bin/sh, timeout_seconds=5, strategy=firejail)"
    );
}

#[test]
fn builder_default_is_the_default_config() {
    let a = SandboxConfigBuilder::default().build();
    let b = SandboxConfigBuilder::new().build();
    assert_eq!(a.to_string(), b.to_string());
    assert_eq!(a.max_recv_line_bytes, 1024 * 1024);
    assert_eq!(a.max_processes, 32);
    assert_eq!(a.max_disk_bytes, 50 * 1024 * 1024);
    assert_eq!(a.env_mode, EnvMode::StripSecrets);
    assert_eq!(a.force_strategy, None);
}

#[test]
fn quick_spawn_config_uses_a_thirty_second_timeout() {
    let config = quick_spawn_config("sh");
    assert_eq!(config.runtime_path, "sh");
    assert_eq!(config.timeout_seconds, 30);
    assert_eq!(config.max_memory_bytes, 256 * 1024 * 1024);
    assert!(config.env_strip_secrets);
}

/// A spread of sample values over `0..bound`, with both ends.
fn samples(bound: u64) -> Vec<u64> {
    let mut v = vec![0, 1, 2, 7, 100, bound / 3, bound / 2, bound - 1];
    let mut x: u64 = 12345;
    for _ in 0..40 {
        x = x.wrapping_mul(6364136223846793005).wrapping_add(1442695040888963407);
        v.push(x % bound);
    }
    v
}

#[test]
fn builder_memory_roundtrip() {
    for mb in samples(100_000) {
        let config = SandboxConfig::builder().max_memory_mb(mb).build();
        assert_eq!(config.max_memory_bytes, mb * 1024 * 1024);
    }
}

#[test]
fn builder_disk_roundtrip() {
    for mb in samples(100_000) {
        let config = SandboxConfig::builder().max_disk_mb(mb).build();
        assert_eq!(config.max_disk_bytes, mb * 1024 * 1024);
    }
}

#[test]
fn env_mode_roundtrip() {
    for mode in [EnvMode::Allowlist, EnvMode::StripSecrets, EnvMode::Blocklist] {
        let config = SandboxConfig::builder().env_mode(mode).build();
        assert_eq!(config.env_mode, mode);
    }
}

#[test]
fn strategy_from_str_roundtrip() {
    for s in ["unshare", "bubblewrap", "bwrap", "firejail", "rlimits-only", "rlimits_only", "rlimits", "none"] {
        assert!(Strategy::try_from(s).is_ok(), "{s}");
    }
}

#[test]
fn strategy_from_str_invalid_rejected() {
    for s in ["a", "unshar", "unshare_", "bubble", "bwrap2", "fire", "rlimit", "rlimitsonly", "nonE", "0", "_", "none_"] {
        assert!(Strategy::try_from(s).is_err(), "{s}");
    }
}

#[test]
fn config_clone_preserves_values() {
    for (i, v) in samples(1_000_000).into_iter().enumerate() {
        let flag = i % 2 == 0;
        let config = SandboxConfig::builder()
            .max_memory_bytes(v)
            .max_cpu_seconds(v / 2)
            .timeout_seconds(v / 3)
            .allow_localhost(flag)
            .env_strip_secrets(!flag)
            .build();
        let cloned = config.clone();
        assert_eq!(cloned.max_memory_bytes, v);
        assert_eq!(cloned.max_cpu_seconds, v / 2);
        assert_eq!(cloned.timeout_seconds, v / 3);
        assert_eq!(cloned.allow_localhost, flag);
        assert_eq!(cloned.env_strip_secrets, !flag);
    }
}

#[test]
fn secret_detection_is_consistent() {
    let config = SandboxConfig::default();
    let mut keys: Vec<String> = DEFAULT_SECRET_ENV_VARS.iter().map(|s| s.to_string()).collect();
    keys.extend(["AWS_", "AWS_X", "GCP_PROJECT", "AZURE_", "AZURE", "GCP", "HOME", "PATH", "_", "A1_B2", "GITHUB", "GITHUB_TOKEN_2"].iter().map(|s| s.to_string()));
    for key in keys {
        let expected = key.starts_with("AWS_")
            || key.starts_with("GCP_")
            || key.starts_with("AZURE_")
            || DEFAULT_SECRET_ENV_VARS.contains(&key.as_str());
        assert_eq!(config.is_secret_env_var(&key), expected, "{key}");
    }
}

#[test]
fn stripped_env_vars_contains_defaults_when_enabled() {
    let config = SandboxConfig::builder().env_strip(&["EXTRA_ONE", "X9"]).env_strip_secrets(true).build();
    let stripped: HashSet<String> = config.stripped_env_vars().into_iter().collect();
    for var in DEFAULT_SECRET_ENV_VARS {
        assert!(stripped.contains(var));
    }
    assert!(stripped.contains("EXTRA_ONE"));
    assert!(stripped.contains("X9"));
}

#[test]
fn stripped_env_vars_omits_defaults_when_disabled() {
    let config = SandboxConfig::builder().env_strip(&["EXTRA_ONE", "X9"]).env_strip_secrets(false).build();
    let stripped: HashSet<String> = config.stripped_env_vars().into_iter().collect();
    for var in DEFAULT_SECRET_ENV_VARS {
        assert!(!stripped.contains(var));
    }
    assert!(stripped.contains("EXTRA_ONE"));
    assert!(stripped.contains("X9"));
}

#[test]
fn test_sandbox_config_builder_invariants() {
    for (i, v) in samples(1_000_000).into_iter().enumerate() {
        let b = i % 3 == 0;
        let config = SandboxConfig::builder()
            .max_memory_mb(v)
            .max_cpu_seconds(v + 1)
            .max_fds(v + 2)
            .max_disk_mb(v / 7)
            .max_processes(v + 3)
            .timeout_seconds(v + 4)
            .max_recv_line_bytes(v as usize + 1)
            .allow_localhost(b)
            .capture_stderr(!b)
            .env_strip_secrets(b)
            .build();
        assert_eq!(config.max_memory_bytes, v * 1024 * 1024);
        assert_eq!(config.max_cpu_seconds, v + 1);
        assert_eq!(config.max_fds, v + 2);
        assert_eq!(config.max_disk_bytes, (v / 7) * 1024 * 1024);
        assert_eq!(config.max_processes, v + 3);
        assert_eq!(config.timeout_seconds, v + 4);
        assert_eq!(config.max_recv_line_bytes, v as usize + 1);
        assert_eq!(config.allow_localhost, b);
        assert_eq!(config.capture_stderr, !b);
        assert_eq!(config.env_strip_secrets, b);
    }
}
