//! Sandbox configuration and its builder.

use vstd::prelude::*;
use crate::strategy::{spec_strategy_name, Strategy};
use crate::text::{chars_of, concat, decimal, decimal_string, has_prefix, starts_with, str_eq};

verus! {

/// Well-known secret environment variables that must never leak into sandboxed processes.
pub const DEFAULT_SECRET_ENV_VARS: [&'static str; 36] = [
    "AWS_ACCESS_KEY_ID",
    "AWS_SECRET_ACCESS_KEY",
    "AWS_SESSION_TOKEN",
    "GITHUB_TOKEN",
    "GH_TOKEN",
    "GITLAB_TOKEN",
    "NPM_TOKEN",
    "DATABASE_URL",
    "PGPASSWORD",
    "MYSQL_PWD",
    "REDIS_URL",
    "REDIS_PASSWORD",
    "SENTRY_DSN",
    "STRIPE_SECRET_KEY",
    "STRIPE_API_KEY",
    "OPENAI_API_KEY",
    "ANTHROPIC_API_KEY",
    "GOOGLE_API_KEY",
    "SLACK_TOKEN",
    "SLACK_BOT_TOKEN",
    "DISCORD_TOKEN",
    "TELEGRAM_BOT_TOKEN",
    "TWILIO_AUTH_TOKEN",
    "SENDGRID_API_KEY",
    "DOCKER_PASSWORD",
    "DOCKER_AUTH_CONFIG",
    "KUBECONFIG",
    "SSH_AUTH_SOCK",
    "GPG_PASSPHRASE",
    "PYPI_TOKEN",
    "CARGO_REGISTRY_TOKEN",
    "NUGET_API_KEY",
    "HEROKU_API_KEY",
    "DIGITALOCEAN_TOKEN",
    "VAULT_TOKEN",
    "CONSUL_TOKEN"
];

/// The names in [`DEFAULT_SECRET_ENV_VARS`].
pub open spec fn spec_default_secret_env_vars() -> Seq<Seq<char>> {
    seq![
        "AWS_ACCESS_KEY_ID"@,
        "AWS_SECRET_ACCESS_KEY"@,
        "AWS_SESSION_TOKEN"@,
        "GITHUB_TOKEN"@,
        "GH_TOKEN"@,
        "GITLAB_TOKEN"@,
        "NPM_TOKEN"@,
        "DATABASE_URL"@,
        "PGPASSWORD"@,
        "MYSQL_PWD"@,
        "REDIS_URL"@,
        "REDIS_PASSWORD"@,
        "SENTRY_DSN"@,
        "STRIPE_SECRET_KEY"@,
        "STRIPE_API_KEY"@,
        "OPENAI_API_KEY"@,
        "ANTHROPIC_API_KEY"@,
        "GOOGLE_API_KEY"@,
        "SLACK_TOKEN"@,
        "SLACK_BOT_TOKEN"@,
        "DISCORD_TOKEN"@,
        "TELEGRAM_BOT_TOKEN"@,
        "TWILIO_AUTH_TOKEN"@,
        "SENDGRID_API_KEY"@,
        "DOCKER_PASSWORD"@,
        "DOCKER_AUTH_CONFIG"@,
        "KUBECONFIG"@,
        "SSH_AUTH_SOCK"@,
        "GPG_PASSPHRASE"@,
        "PYPI_TOKEN"@,
        "CARGO_REGISTRY_TOKEN"@,
        "NUGET_API_KEY"@,
        "HEROKU_API_KEY"@,
        "DIGITALOCEAN_TOKEN"@,
        "VAULT_TOKEN"@,
        "CONSUL_TOKEN"@
    ]
}

/// Well-known secret environment variables, as a vector.
pub fn default_secret_env_vars() -> (v: Vec<&'static str>)
    ensures
        v@.map_values(|s: &str| s@) == spec_default_secret_env_vars(),
{
    let v = vec![
        "AWS_ACCESS_KEY_ID",
        "AWS_SECRET_ACCESS_KEY",
        "AWS_SESSION_TOKEN",
        "GITHUB_TOKEN",
        "GH_TOKEN",
        "GITLAB_TOKEN",
        "NPM_TOKEN",
        "DATABASE_URL",
        "PGPASSWORD",
        "MYSQL_PWD",
        "REDIS_URL",
        "REDIS_PASSWORD",
        "SENTRY_DSN",
        "STRIPE_SECRET_KEY",
        "STRIPE_API_KEY",
        "OPENAI_API_KEY",
        "ANTHROPIC_API_KEY",
        "GOOGLE_API_KEY",
        "SLACK_TOKEN",
        "SLACK_BOT_TOKEN",
        "DISCORD_TOKEN",
        "TELEGRAM_BOT_TOKEN",
        "TWILIO_AUTH_TOKEN",
        "SENDGRID_API_KEY",
        "DOCKER_PASSWORD",
        "DOCKER_AUTH_CONFIG",
        "KUBECONFIG",
        "SSH_AUTH_SOCK",
        "GPG_PASSPHRASE",
        "PYPI_TOKEN",
        "CARGO_REGISTRY_TOKEN",
        "NUGET_API_KEY",
        "HEROKU_API_KEY",
        "DIGITALOCEAN_TOKEN",
        "VAULT_TOKEN",
        "CONSUL_TOKEN"
    ];
    assert(v@.map_values(|s: &str| s@) =~= spec_default_secret_env_vars());
    v
}

/// Prefixes of secret environment variable names.
pub open spec fn spec_secret_prefixes() -> Seq<Seq<char>> {
    seq!["AWS_"@, "GCP_"@, "AZURE_"@]
}

/// The character sequences of a list of strings.
pub open spec fn string_views(v: Seq<String>) -> Seq<Seq<char>> {
    v.map_values(|s: String| s@)
}

/// The character sequences of a list of string slices.
pub open spec fn str_views(v: Seq<&str>) -> Seq<Seq<char>> {
    v.map_values(|s: &str| s@)
}

/// How environment variables reach the sandboxed process.
#[derive(Clone, Copy, Debug, PartialEq, Eq, Hash, Structural)]
pub enum EnvMode {
    /// Inherit the host environment without its secret variables.
    StripSecrets,
    /// Only the `env_passthrough` variables and the `env_set` overrides.
    Allowlist,
    /// Inherit the host environment without the variables of `env_strip` and the secrets.
    Blocklist,
}

/// The kebab-case name of an environment mode.
pub open spec fn spec_env_mode_name(m: EnvMode) -> Seq<char> {
    match m {
        EnvMode::StripSecrets => "strip-secrets"@,
        EnvMode::Allowlist => "allowlist"@,
        EnvMode::Blocklist => "blocklist"@,
    }
}

impl EnvMode {
    /// The kebab-case name of the mode.
    pub fn name(&self) -> (r: &'static str)
        ensures
            r@ == spec_env_mode_name(*self),
    {
        match self {
            EnvMode::StripSecrets => "strip-secrets",
            EnvMode::Allowlist => "allowlist",
            EnvMode::Blocklist => "blocklist",
        }
    }

    /// The kebab-case name of the mode as an owned string.
    pub fn to_string(&self) -> (r: String)
        ensures
            r@ == spec_env_mode_name(*self),
    {
        String::from_str(self.name())
    }
}

/// Configuration of the sandbox.
#[derive(Clone, Debug)]
pub struct SandboxConfig {
    /// Maximum memory in bytes.
    pub max_memory_bytes: u64,
    /// Maximum CPU time in seconds.
    pub max_cpu_seconds: u64,
    /// Maximum open file descriptors.
    pub max_fds: u64,
    /// Maximum writable disk space in bytes.
    pub max_disk_bytes: u64,
    /// Maximum number of processes/threads.
    pub max_processes: u64,
    /// Fail closed when the cgroup v2 hardware limits cannot be set up.
    pub require_hardware_limits: bool,
    /// Allow localhost networking.
    pub allow_localhost: bool,
    /// Path to the runtime binary.
    pub runtime_path: String,
    /// Runtime arguments inserted before the harness path.
    pub runtime_args: Vec<String>,
    /// Environment variables to pass through (a set: each name at most once).
    pub env_passthrough: Vec<String>,
    /// Additional environment variables to set in the sandboxed process.
    pub env_set: Vec<(String, String)>,
    /// Environment variables to strip (a set: each name at most once).
    pub env_strip: Vec<String>,
    /// Whether the well-known secret variables are stripped too.
    pub env_strip_secrets: bool,
    /// How environment variables are propagated into the sandbox.
    pub env_mode: EnvMode,
    /// A forced containment strategy; `None` selects the best one available.
    pub force_strategy: Option<Strategy>,
    /// Read-only bind mounts: `(host_path, container_path)`.
    pub readonly_mounts: Vec<(String, String)>,
    /// Read-write bind mounts: `(host_path, container_path)`.
    pub writable_mounts: Vec<(String, String)>,
    /// Timeout for the whole process in seconds (0 = no timeout).
    pub timeout_seconds: u64,
    /// Whether stderr is captured instead of inherited.
    pub capture_stderr: bool,
    /// Maximum bytes read from stdout in one `recv()` call.
    pub max_recv_line_bytes: usize,
}

impl SandboxConfig {
    /// `self` holds the default values: the `node` runtime, 256 MiB of memory,
    /// 30 s of CPU, 64 descriptors, 50 MiB of disk, 32 processes, a 60 s
    /// timeout, secrets stripped, automatic strategy, 1 MiB per received line.
    pub open spec fn is_default(&self) -> bool {
        &&& self.max_memory_bytes == 256 * 1024 * 1024
        &&& self.max_cpu_seconds == 30
        &&& self.max_fds == 64
        &&& self.max_disk_bytes == 50 * 1024 * 1024
        &&& self.max_processes == 32
        &&& !self.require_hardware_limits
        &&& !self.allow_localhost
        &&& self.runtime_path@ == "node"@
        &&& self.runtime_args@.len() == 0
        &&& self.env_passthrough@.len() == 0
        &&& self.env_set@.len() == 0
        &&& self.env_strip@.len() == 0
        &&& self.readonly_mounts@.len() == 0
        &&& self.writable_mounts@.len() == 0
        &&& self.env_strip_secrets
        &&& self.env_mode == EnvMode::StripSecrets
        &&& self.force_strategy == Option::<Strategy>::None
        &&& self.timeout_seconds == 60
        &&& !self.capture_stderr
        &&& self.max_recv_line_bytes == 1024 * 1024
    }

    /// Whether `name` counts as a secret under this configuration: it is
    /// listed in `env_strip`, or secrets are stripped and it is a well-known
    /// secret or starts with `AWS_`, `GCP_` or `AZURE_`.
    pub open spec fn spec_is_secret(&self, name: Seq<char>) -> bool {
        ||| string_views(self.env_strip@).contains(name)
        ||| (self.env_strip_secrets && (spec_default_secret_env_vars().contains(name) || exists|
            i: int,
        | 0 <= i < spec_secret_prefixes().len() && has_prefix(name, spec_secret_prefixes()[i])))
    }

    /// The names that are stripped from the sandboxed environment.
    pub open spec fn spec_stripped_names(&self) -> Set<Seq<char>> {
        if self.env_strip_secrets {
            string_views(self.env_strip@).to_set() + spec_default_secret_env_vars().to_set()
        } else {
            string_views(self.env_strip@).to_set()
        }
    }

    /// Every name that the configuration strips counts as a secret, and the
    /// well-known secrets are stripped exactly when secrets are stripped at
    /// all.
    pub proof fn lemma_stripped_names_are_secret(&self, name: Seq<char>)
        ensures
            self.spec_stripped_names().contains(name) ==> self.spec_is_secret(name),
            spec_default_secret_env_vars().contains(name) ==> (self.spec_stripped_names().contains(name)
                <== self.env_strip_secrets),
            !self.env_strip_secrets ==> (self.spec_stripped_names().contains(name) <==> string_views(
                self.env_strip@,
            ).contains(name)),
    {
        if self.spec_stripped_names().contains(name) && !string_views(self.env_strip@).contains(name) {
            assert(self.env_strip_secrets);
            assert(spec_default_secret_env_vars().to_set().contains(name));
        }
        if spec_default_secret_env_vars().contains(name) && self.env_strip_secrets {
            assert(spec_default_secret_env_vars().to_set().contains(name));
        }
    }

    /// Whether `name` should be treated as secret.
    pub fn is_secret_env_var(&self, name: &str) -> (r: bool)
        ensures
            r == self.spec_is_secret(name@),
    {
        if contains_string(&self.env_strip, name) {
            return true;
        }
        if !self.env_strip_secrets {
            return false;
        }
        if contains_str(&default_secret_env_vars(), name) {
            return true;
        }
        let n = chars_of(name);
        let prefixes: Vec<&str> = vec!["AWS_", "GCP_", "AZURE_"];
        assert(str_views(prefixes@) =~= spec_secret_prefixes());
        let mut i: usize = 0;
        while i < prefixes.len()
            invariant
                i <= prefixes.len(),
                n@ == name@,
                self.env_strip_secrets,
                str_views(prefixes@) == spec_secret_prefixes(),
                forall|k: int| 0 <= k < i ==> !has_prefix(name@, spec_secret_prefixes()[k]),
            decreases prefixes.len() - i,
        {
            let p = chars_of(prefixes[i]);
            assert(p@ == spec_secret_prefixes()[i as int]);
            if starts_with(&n, &p) {
                assert(has_prefix(name@, spec_secret_prefixes()[i as int]));
                assert(self.spec_is_secret(name@));
                return true;
            }
            i = i + 1;
        }
        false
    }

    /// All environment variable names that are stripped from the sandboxed
    /// process, each once.
    pub fn stripped_env_vars(&self) -> (r: Vec<String>)
        ensures
            string_views(r@).no_duplicates(),
            string_views(r@).to_set() == self.spec_stripped_names(),
    {
        let mut r: Vec<String> = Vec::new();
        let mut i: usize = 0;
        while i < self.env_strip.len()
            invariant
                i <= self.env_strip.len(),
                string_views(r@).no_duplicates(),
                string_views(r@).to_set() == string_views(self.env_strip@.take(i as int)).to_set(),
            decreases self.env_strip.len() - i,
        {
            insert_name(&mut r, self.env_strip[i].as_str());
            proof {
                assert(string_views(self.env_strip@.take(i + 1)) == string_views(
                    self.env_strip@.take(i as int),
                ).push(self.env_strip@[i as int]@));
                lemma_push_to_set(string_views(self.env_strip@.take(i as int)), self.env_strip@[i as int]@);
            }
            i = i + 1;
        }
        assert(self.env_strip@.take(self.env_strip.len() as int) == self.env_strip@);
        if self.env_strip_secrets {
            let defaults = default_secret_env_vars();
            let ghost base = string_views(r@).to_set();
            let mut j: usize = 0;
            while j < defaults.len()
                invariant
                    j <= defaults.len(),
                    str_views(defaults@) == spec_default_secret_env_vars(),
                    string_views(r@).no_duplicates(),
                    string_views(r@).to_set() == base + str_views(defaults@.take(j as int)).to_set(),
                decreases defaults.len() - j,
            {
                insert_name(&mut r, defaults[j]);
                proof {
                    assert(str_views(defaults@.take(j + 1)) == str_views(defaults@.take(j as int)).push(
                        defaults@[j as int]@,
                    ));
                    lemma_push_to_set(str_views(defaults@.take(j as int)), defaults@[j as int]@);
                }
                j = j + 1;
            }
            assert(defaults@.take(defaults.len() as int) == defaults@);
        }
        r
    }
}

proof fn lemma_push_to_set(s: Seq<Seq<char>>, x: Seq<char>)
    ensures
        s.push(x).to_set() == s.to_set().insert(x),
{
    assert(s.push(x).to_set() =~= s.to_set().insert(x)) by {
        assert forall|y: Seq<char>| s.push(x).to_set().contains(y) implies s.to_set().insert(
            x,
        ).contains(y) by {
            let k = choose|k: int| 0 <= k < s.push(x).len() && s.push(x)[k] == y;
            if k < s.len() {
                assert(s[k] == y);
            }
        }
        assert forall|y: Seq<char>| s.to_set().insert(x).contains(y) implies s.push(
            x,
        ).to_set().contains(y) by {
            if y == x {
                assert(s.push(x)[s.len() as int] == x);
            } else {
                let k = choose|k: int| 0 <= k < s.len() && s[k] == y;
                assert(s.push(x)[k] == y);
            }
        }
    }
}

/// Whether `v` holds a string equal to `name`.
pub fn contains_string(v: &Vec<String>, name: &str) -> (r: bool)
    ensures
        r == string_views(v@).contains(name@),
{
    let mut i: usize = 0;
    while i < v.len()
        invariant
            i <= v.len(),
            forall|k: int| 0 <= k < i ==> v@[k]@ != name@,
        decreases v.len() - i,
    {
        if str_eq(v[i].as_str(), name) {
            assert(string_views(v@)[i as int] == name@);
            return true;
        }
        i = i + 1;
    }
    assert forall|k: int| 0 <= k < string_views(v@).len() implies string_views(v@)[k] != name@ by {
        assert(string_views(v@)[k] == v@[k]@);
    }
    false
}

/// Whether `v` holds a string slice equal to `name`.
pub fn contains_str(v: &Vec<&str>, name: &str) -> (r: bool)
    ensures
        r == str_views(v@).contains(name@),
{
    let mut i: usize = 0;
    while i < v.len()
        invariant
            i <= v.len(),
            forall|k: int| 0 <= k < i ==> v@[k]@ != name@,
        decreases v.len() - i,
    {
        if str_eq(v[i], name) {
            assert(str_views(v@)[i as int] == name@);
            return true;
        }
        i = i + 1;
    }
    assert forall|k: int| 0 <= k < str_views(v@).len() implies str_views(v@)[k] != name@ by {
        assert(str_views(v@)[k] == v@[k]@);
    }
    false
}

/// Adds `name` to the set of names `v` unless it is there already.
pub fn insert_name(v: &mut Vec<String>, name: &str)
    ensures
        string_views(old(v)@).no_duplicates() ==> string_views(final(v)@).no_duplicates(),
        string_views(final(v)@).to_set() == string_views(old(v)@).to_set().insert(name@),
        string_views(old(v)@).contains(name@) ==> final(v)@ == old(v)@,
        !string_views(old(v)@).contains(name@) ==> string_views(final(v)@) == string_views(
            old(v)@,
        ).push(name@),
{
    if contains_string(v, name) {
        proof {
            assert(string_views(v@).to_set() =~= string_views(v@).to_set().insert(name@));
        }
        return;
    }
    let s = String::from_str(name);
    let ghost before = string_views(v@);
    v.push(s);
    proof {
        assert(string_views(v@) == before.push(name@));
        lemma_push_to_set(before, name@);
        assert forall|a: int, b: int| before.no_duplicates() && 0 <= a < b < string_views(v@).len() implies string_views(v@)[a] != string_views(v@)[b] by {
            if b == before.len() {
                assert(before[a] == string_views(v@)[a]);
            } else {
                assert(before[a] != before[b]);
            }
        }
    }
}

impl Default for SandboxConfig {
    fn default() -> (r: SandboxConfig)
        ensures
            r.is_default(),
    {
        SandboxConfig {
            max_memory_bytes: 256 * 1024 * 1024,
            max_cpu_seconds: 30,
            max_fds: 64,
            max_disk_bytes: 50 * 1024 * 1024,
            max_processes: 32,
            require_hardware_limits: false,
            allow_localhost: false,
            runtime_path: String::from_str("node"),
            runtime_args: Vec::new(),
            env_passthrough: Vec::new(),
            env_set: Vec::new(),
            env_strip: Vec::new(),
            env_strip_secrets: true,
            env_mode: EnvMode::StripSecrets,
            force_strategy: Option::None,
            readonly_mounts: Vec::new(),
            writable_mounts: Vec::new(),
            timeout_seconds: 60,
            capture_stderr: false,
            max_recv_line_bytes: 1024 * 1024,
        }
    }
}

/// The textual description of a configuration (what `Display` shows): the
/// runtime, the timeout, and the forced strategy or `auto`.
pub open spec fn spec_config_text(c: SandboxConfig) -> Seq<char> {
    "SandboxConfig(runtime="@ + c.runtime_path@ + ", timeout_seconds="@ + decimal(c.timeout_seconds as nat)
        + ", strategy="@ + match c.force_strategy {
        Some(s) => spec_strategy_name(s),
        None => "auto"@,
    } + ")"@
}

impl SandboxConfig {
    /// The textual description of the configuration.
    pub fn to_string(&self) -> (r: String)
        ensures
            r@ == spec_config_text(*self),
    {
        let mut s = concat("SandboxConfig(runtime=", self.runtime_path.as_str());
        s.append(", timeout_seconds=");
        let t = decimal_string(self.timeout_seconds);
        s.append(t.as_str());
        s.append(", strategy=");
        match self.force_strategy {
            Some(st) => s.append(st.name()),
            None => s.append("auto"),
        }
        s.append(")");
        s
    }

    /// Starts building a configuration from the default values.
    pub fn builder() -> (b: SandboxConfigBuilder)
        ensures
            b@.is_default(),
    {
        SandboxConfigBuilder::new()
    }
}

/// The strings of `v`, each once, in order of first occurrence.
pub open spec fn is_name_set_of(r: Seq<Seq<char>>, v: Seq<Seq<char>>) -> bool {
    r.no_duplicates() && r.to_set() == v.to_set()
}

/// Builder of a [`SandboxConfig`].
#[derive(Clone, Debug)]
pub struct SandboxConfigBuilder {
    config: SandboxConfig,
}

impl View for SandboxConfigBuilder {
    type V = SandboxConfig;

    closed spec fn view(&self) -> SandboxConfig {
        self.config
    }
}

impl Default for SandboxConfigBuilder {
    fn default() -> (r: SandboxConfigBuilder)
        ensures
            r@.is_default(),
    {
        SandboxConfigBuilder::new()
    }
}

impl SandboxConfigBuilder {
    /// A builder that starts from the default configuration.
    pub fn new() -> (r: SandboxConfigBuilder)
        ensures
            r@.is_default(),
    {
        SandboxConfigBuilder { config: SandboxConfig::default() }
    }

    /// Sets the runtime binary path.
    pub fn runtime(self, path: &str) -> (r: SandboxConfigBuilder)
        ensures
            r@.runtime_path@ == path@,
            r@ == (SandboxConfig { runtime_path: r@.runtime_path, ..self@ }),
    {
        let mut c = self.config;
        c.runtime_path = String::from_str(path);
        SandboxConfigBuilder { config: c }
    }

    /// Sets the arguments passed to the runtime before the harness script.
    pub fn runtime_args(self, args: &[&str]) -> (r: SandboxConfigBuilder)
        ensures
            string_views(r@.runtime_args@) == str_views(args@),
            r@ == (SandboxConfig { runtime_args: r@.runtime_args, ..self@ }),
    {
        let mut v: Vec<String> = Vec::new();
        let mut i: usize = 0;
        while i < args.len()
            invariant
                i <= args.len(),
                string_views(v@) == str_views(args@.take(i as int)),
            decreases args.len() - i,
        {
            let ghost before = v@;
            v.push(String::from_str(args[i]));
            assert(string_views(v@) =~= string_views(before).push(args@[i as int]@));
            assert(str_views(args@.take(i + 1)) =~= str_views(args@.take(i as int)).push(
                args@[i as int]@,
            ));
            i = i + 1;
        }
        assert(args@.take(args.len() as int) == args@);
        let mut c = self.config;
        c.runtime_args = v;
        SandboxConfigBuilder { config: c }
    }

    /// Sets the memory limit in megabytes (MiB).
    pub fn max_memory_mb(self, mb: u64) -> (r: SandboxConfigBuilder)
        requires
            mb * 1024 * 1024 <= u64::MAX,
        ensures
            r@ == (SandboxConfig { max_memory_bytes: (mb * 1024 * 1024) as u64, ..self@ }),
    {
        let mut c = self.config;
        c.max_memory_bytes = mb * 1024 * 1024;
        SandboxConfigBuilder { config: c }
    }

    /// Sets the memory limit in bytes.
    pub fn max_memory_bytes(self, bytes: u64) -> (r: SandboxConfigBuilder)
        ensures
            r@ == (SandboxConfig { max_memory_bytes: bytes, ..self@ }),
    {
        let mut c = self.config;
        c.max_memory_bytes = bytes;
        SandboxConfigBuilder { config: c }
    }

    /// Sets the CPU time limit in seconds.
    pub fn max_cpu_seconds(self, seconds: u64) -> (r: SandboxConfigBuilder)
        ensures
            r@ == (SandboxConfig { max_cpu_seconds: seconds, ..self@ }),
    {
        let mut c = self.config;
        c.max_cpu_seconds = seconds;
        SandboxConfigBuilder { config: c }
    }

    /// Sets the limit of open file descriptors.
    pub fn max_fds(self, fds: u64) -> (r: SandboxConfigBuilder)
        ensures
            r@ == (SandboxConfig { max_fds: fds, ..self@ }),
    {
        let mut c = self.config;
        c.max_fds = fds;
        SandboxConfigBuilder { config: c }
    }

    /// Sets the writable disk limit in megabytes (MiB).
    pub fn max_disk_mb(self, mb: u64) -> (r: SandboxConfigBuilder)
        requires
            mb * 1024 * 1024 <= u64::MAX,
        ensures
            r@ == (SandboxConfig { max_disk_bytes: (mb * 1024 * 1024) as u64, ..self@ }),
    {
        let mut c = self.config;
        c.max_disk_bytes = mb * 1024 * 1024;
        SandboxConfigBuilder { config: c }
    }

    /// Sets the limit of processes/threads.
    pub fn max_processes(self, n: u64) -> (r: SandboxConfigBuilder)
        ensures
            r@ == (SandboxConfig { max_processes: n, ..self@ }),
    {
        let mut c = self.config;
        c.max_processes = n;
        SandboxConfigBuilder { config: c }
    }

    /// Requires the cgroup v2 hardware limits: spawning fails closed without them.
    pub fn require_hardware_limits(self, require: bool) -> (r: SandboxConfigBuilder)
        ensures
            r@ == (SandboxConfig { require_hardware_limits: require, ..self@ }),
    {
        let mut c = self.config;
        c.require_hardware_limits = require;
        SandboxConfigBuilder { config: c }
    }

    /// Allows or forbids localhost networking.
    pub fn allow_localhost(self, allow: bool) -> (r: SandboxConfigBuilder)
        ensures
            r@ == (SandboxConfig { allow_localhost: allow, ..self@ }),
    {
        let mut c = self.config;
        c.allow_localhost = allow;
        SandboxConfigBuilder { config: c }
    }

    /// Sets the environment variables to pass through (replacing earlier ones).
    pub fn env_passthrough(self, vars: &[&str]) -> (r: SandboxConfigBuilder)
        ensures
            is_name_set_of(string_views(r@.env_passthrough@), str_views(vars@)),
            r@ == (SandboxConfig { env_passthrough: r@.env_passthrough, ..self@ }),
    {
        let mut v: Vec<String> = Vec::new();
        let mut i: usize = 0;
        assert(string_views(v@).to_set() =~= str_views(vars@.take(0)).to_set());
        while i < vars.len()
            invariant
                i <= vars.len(),
                is_name_set_of(string_views(v@), str_views(vars@.take(i as int))),
            decreases vars.len() - i,
        {
            insert_name(&mut v, vars[i]);
            proof {
                assert(str_views(vars@.take(i + 1)) == str_views(vars@.take(i as int)).push(
                    vars@[i as int]@,
                ));
                lemma_push_to_set(str_views(vars@.take(i as int)), vars@[i as int]@);
            }
            i = i + 1;
        }
        assert(vars@.take(vars.len() as int) == vars@);
        let mut c = self.config;
        c.env_passthrough = v;
        SandboxConfigBuilder { config: c }
    }

    /// Adds a variable to set in the sandboxed environment.
    pub fn env_set(self, key: &str, value: &str) -> (r: SandboxConfigBuilder)
        ensures
            r@.env_set@.len() == self@.env_set@.len() + 1,
            r@.env_set@.take(self@.env_set@.len() as int) == self@.env_set@,
            r@.env_set@.last().0@ == key@,
            r@.env_set@.last().1@ == value@,
            r@ == (SandboxConfig { env_set: r@.env_set, ..self@ }),
    {
        let mut c = self.config;
        c.env_set.push((String::from_str(key), String::from_str(value)));
        assert(c.env_set@.take(self@.env_set@.len() as int) =~= self@.env_set@);
        SandboxConfigBuilder { config: c }
    }

    /// Whether the well-known secret variables are stripped.
    pub fn env_strip_secrets(self, strip: bool) -> (r: SandboxConfigBuilder)
        ensures
            r@ == (SandboxConfig { env_strip_secrets: strip, ..self@ }),
    {
        let mut c = self.config;
        c.env_strip_secrets = strip;
        SandboxConfigBuilder { config: c }
    }

    /// Adds variables to strip from the sandboxed environment.
    pub fn env_strip(self, vars: &[&str]) -> (r: SandboxConfigBuilder)
        ensures
            string_views(r@.env_strip@).to_set() == string_views(self@.env_strip@).to_set()
                + str_views(vars@).to_set(),
            string_views(self@.env_strip@).no_duplicates() ==> string_views(
                r@.env_strip@,
            ).no_duplicates(),
            r@ == (SandboxConfig { env_strip: r@.env_strip, ..self@ }),
    {
        let mut c = self.config;
        let ghost start = string_views(c.env_strip@);
        let mut i: usize = 0;
        assert(start.to_set() =~= start.to_set() + str_views(vars@.take(0)).to_set());
        while i < vars.len()
            invariant
                i <= vars.len(),
                c == (SandboxConfig { env_strip: c.env_strip, ..self@ }),
                start == string_views(self@.env_strip@),
                string_views(c.env_strip@).to_set() == start.to_set() + str_views(
                    vars@.take(i as int),
                ).to_set(),
                start.no_duplicates() ==> string_views(c.env_strip@).no_duplicates(),
            decreases vars.len() - i,
        {
            insert_name(&mut c.env_strip, vars[i]);
            proof {
                assert(str_views(vars@.take(i + 1)) == str_views(vars@.take(i as int)).push(
                    vars@[i as int]@,
                ));
                lemma_push_to_set(str_views(vars@.take(i as int)), vars@[i as int]@);
            }
            i = i + 1;
        }
        assert(vars@.take(vars.len() as int) == vars@);
        SandboxConfigBuilder { config: c }
    }

    /// Sets how environment variables are propagated.
    pub fn env_mode(self, mode: EnvMode) -> (r: SandboxConfigBuilder)
        ensures
            r@ == (SandboxConfig { env_mode: mode, ..self@ }),
    {
        let mut c = self.config;
        c.env_mode = mode;
        SandboxConfigBuilder { config: c }
    }

    /// Forces a containment strategy.
    pub fn strategy(self, strategy: Strategy) -> (r: SandboxConfigBuilder)
        ensures
            r@ == (SandboxConfig { force_strategy: Some(strategy), ..self@ }),
    {
        let mut c = self.config;
        c.force_strategy = Some(strategy);
        SandboxConfigBuilder { config: c }
    }

    /// Adds a read-only bind mount.
    pub fn readonly_mount(self, host: &str, container: &str) -> (r: SandboxConfigBuilder)
        ensures
            r@.readonly_mounts@.len() == self@.readonly_mounts@.len() + 1,
            r@.readonly_mounts@.take(self@.readonly_mounts@.len() as int) == self@.readonly_mounts@,
            r@.readonly_mounts@.last().0@ == host@,
            r@.readonly_mounts@.last().1@ == container@,
            r@ == (SandboxConfig { readonly_mounts: r@.readonly_mounts, ..self@ }),
    {
        let mut c = self.config;
        c.readonly_mounts.push((String::from_str(host), String::from_str(container)));
        assert(c.readonly_mounts@.take(self@.readonly_mounts@.len() as int)
            =~= self@.readonly_mounts@);
        SandboxConfigBuilder { config: c }
    }

    /// Adds a read-write bind mount.
    pub fn writable_mount(self, host: &str, container: &str) -> (r: SandboxConfigBuilder)
        ensures
            r@.writable_mounts@.len() == self@.writable_mounts@.len() + 1,
            r@.writable_mounts@.take(self@.writable_mounts@.len() as int) == self@.writable_mounts@,
            r@.writable_mounts@.last().0@ == host@,
            r@.writable_mounts@.last().1@ == container@,
            r@ == (SandboxConfig { writable_mounts: r@.writable_mounts, ..self@ }),
    {
        let mut c = self.config;
        c.writable_mounts.push((String::from_str(host), String::from_str(container)));
        assert(c.writable_mounts@.take(self@.writable_mounts@.len() as int)
            =~= self@.writable_mounts@);
        SandboxConfigBuilder { config: c }
    }

    /// Sets the process timeout in seconds (0 = no timeout).
    pub fn timeout_seconds(self, seconds: u64) -> (r: SandboxConfigBuilder)
        ensures
            r@ == (SandboxConfig { timeout_seconds: seconds, ..self@ }),
    {
        let mut c = self.config;
        c.timeout_seconds = seconds;
        SandboxConfigBuilder { config: c }
    }

    /// Captures stderr separately instead of inheriting it.
    pub fn capture_stderr(self, capture: bool) -> (r: SandboxConfigBuilder)
        ensures
            r@ == (SandboxConfig { capture_stderr: capture, ..self@ }),
    {
        let mut c = self.config;
        c.capture_stderr = capture;
        SandboxConfigBuilder { config: c }
    }

    /// Sets the maximum number of bytes read from stdout in one `recv()` call.
    pub fn max_recv_line_bytes(self, bytes: usize) -> (r: SandboxConfigBuilder)
        ensures
            r@ == (SandboxConfig { max_recv_line_bytes: bytes, ..self@ }),
    {
        let mut c = self.config;
        c.max_recv_line_bytes = bytes;
        SandboxConfigBuilder { config: c }
    }

    /// The textual description of the builder: that of its configuration.
    pub fn to_string(&self) -> (r: String)
        ensures
            r@ == "SandboxConfigBuilder("@ + spec_config_text(self@) + ")"@,
    {
        let inner = self.config.to_string();
        let mut s = concat("SandboxConfigBuilder(", inner.as_str());
        s.append(")");
        s
    }

    /// The configuration built so far.
    pub fn build(self) -> (r: SandboxConfig)
        ensures
            r == self@,
    {
        self.config
    }
}

} // verus!
