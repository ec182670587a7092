//! Capability detection: the commands that probe the host, and the choice of
//! the best containment strategy from their outcomes.

use vstd::prelude::*;
use crate::config::string_views;
use crate::strategy::{spec_strategy_name, Strategy};
use crate::command::{bwrap_base_args, spec_firejail_args, spec_unshare_args};
use crate::config::SandboxConfig;
use crate::text::{chars_of, concat, contains, has_substring};

verus! {

/// A command that probes one containment mechanism: it must print `ok`.
#[derive(Clone, Debug)]
pub struct ProbeCommand {
    /// The program to run.
    pub program: String,
    /// Its arguments.
    pub args: Vec<String>,
}

fn arg_vec(items: &Vec<&str>) -> (v: Vec<String>)
    ensures
        string_views(v@) == items@.map_values(|s: &str| s@),
{
    let mut v: Vec<String> = Vec::new();
    let mut i: usize = 0;
    while i < items.len()
        invariant
            i <= items.len(),
            string_views(v@) == items@.take(i as int).map_values(|s: &str| s@),
        decreases items.len() - i,
    {
        let ghost before = v@;
        v.push(String::from_str(items[i]));
        assert(string_views(v@) =~= string_views(before).push(items@[i as int]@));
        assert(items@.take(i + 1).map_values(|s: &str| s@) =~= items@.take(i as int).map_values(|s: &str| s@).push(items@[i as int]@));
        i = i + 1;
    }
    assert(items@.take(items.len() as int) == items@);
    v
}

/// The arguments of the `unshare` probe: the namespaces that the sandbox
/// itself creates (PID with a fresh `/proc`, mount, user), then `echo ok`.
pub open spec fn spec_unshare_probe_args() -> Seq<Seq<char>> {
    seq!["--pid"@, "--fork"@, "--mount-proc"@, "--mount"@, "--map-root-user"@, "--"@, "echo"@, "ok"@]
}

/// The arguments of the bubblewrap probe: the filesystem layout that the
/// sandbox itself uses (an empty tmpfs root with the system directories bound),
/// then `/bin/echo ok`.
pub open spec fn spec_bwrap_probe_args() -> Seq<Seq<char>> {
    seq![
        "--tmpfs"@, "/"@, "--proc"@, "/proc"@, "--dev"@, "/dev"@,
        "--ro-bind"@, "/usr"@, "/usr"@,
        "--ro-bind-try"@, "/bin"@, "/bin"@,
        "--ro-bind-try"@, "/lib"@, "/lib"@,
        "--ro-bind-try"@, "/lib64"@, "/lib64"@,
        "--"@, "/bin/echo"@, "ok"@,
    ]
}

/// The arguments of the firejail probe: a minimal real sandbox running `echo ok`.
pub open spec fn spec_firejail_probe_args() -> Seq<Seq<char>> {
    seq!["--noprofile"@, "--"@, "echo"@, "ok"@]
}

/// The probe of `unshare`.
pub fn unshare_probe() -> (p: ProbeCommand)
    ensures
        p.program@ == "unshare"@,
        string_views(p.args@) == spec_unshare_probe_args(),
{
    let items = vec!["--pid", "--fork", "--mount-proc", "--mount", "--map-root-user", "--", "echo", "ok"];
    let args = arg_vec(&items);
    assert(items@.map_values(|s: &str| s@) =~= spec_unshare_probe_args());
    ProbeCommand { program: String::from_str("unshare"), args }
}

/// The probe of bubblewrap.
pub fn bubblewrap_probe() -> (p: ProbeCommand)
    ensures
        p.program@ == "bwrap"@,
        string_views(p.args@) == spec_bwrap_probe_args(),
{
    let items = vec![
        "--tmpfs", "/", "--proc", "/proc", "--dev", "/dev",
        "--ro-bind", "/usr", "/usr",
        "--ro-bind-try", "/bin", "/bin",
        "--ro-bind-try", "/lib", "/lib",
        "--ro-bind-try", "/lib64", "/lib64",
        "--", "/bin/echo", "ok",
    ];
    let args = arg_vec(&items);
    assert(items@.map_values(|s: &str| s@) =~= spec_bwrap_probe_args());
    ProbeCommand { program: String::from_str("bwrap"), args }
}

/// The probe of firejail.
pub fn firejail_probe() -> (p: ProbeCommand)
    ensures
        p.program@ == "firejail"@,
        string_views(p.args@) == spec_firejail_probe_args(),
{
    let items = vec!["--noprofile", "--", "echo", "ok"];
    let args = arg_vec(&items);
    assert(items@.map_values(|s: &str| s@) =~= spec_firejail_probe_args());
    ProbeCommand { program: String::from_str("firejail"), args }
}

/// Whether a probe worked: it exited successfully and its output, read as
/// UTF-8 with invalid sequences replaced, contains `ok`.
pub fn probe_output_ok(success: bool, stdout: &str) -> (r: bool)
    ensures
        r == (success && has_substring(stdout@, "ok"@)),
{
    if !success {
        return false;
    }
    let out = chars_of(stdout);
    let ok = chars_of("ok");
    contains(&out, &ok)
}

/// The probes test what the sandbox really uses: the `unshare` probe
/// requests the same namespaces as the `unshare` wrapper (with `--mount-proc`),
/// the bubblewrap probe builds the same filesystem layout as the bubblewrap
/// wrapper (an empty tmpfs root, fresh `/proc` and `/dev`, the system
/// directories) except its private `/tmp`, and the firejail probe runs a real
/// sandbox without a profile, as the firejail wrapper does.
pub proof fn lemma_probes_match_commands(runtime: Seq<char>, work_dir: Seq<char>, config: SandboxConfig, nproc_limit: u64)
    ensures
        spec_unshare_probe_args().take(5) == spec_unshare_args(runtime, config.allow_localhost).take(5),
        spec_unshare_probe_args().contains("--mount-proc"@),
        spec_bwrap_probe_args().take(18) == bwrap_base_args().take(2) + bwrap_base_args().subrange(4, 20),
        spec_firejail_probe_args()[0] == "--noprofile"@,
        spec_firejail_args(runtime, work_dir, config, nproc_limit) matches Ok(a) ==> a[1] == "--noprofile"@,
{
    let u = spec_unshare_args(runtime, config.allow_localhost);
    assert(spec_unshare_probe_args().take(5) =~= u.take(5));
    assert(spec_unshare_probe_args()[2] == "--mount-proc"@);
    assert(spec_bwrap_probe_args().take(18) =~= bwrap_base_args().take(2) + bwrap_base_args().subrange(4, 20));
}

/// The best strategy available: bubblewrap (strongest filesystem isolation),
/// then `unshare`, then firejail, and resource limits only when none works.
pub open spec fn spec_best_strategy(has_unshare: bool, has_bubblewrap: bool, has_firejail: bool) -> Strategy {
    if has_bubblewrap {
        Strategy::Bubblewrap
    } else if has_unshare {
        Strategy::Unshare
    } else if has_firejail {
        Strategy::Firejail
    } else {
        Strategy::RlimitsOnly
    }
}

/// How much containment the host offers.
#[derive(Clone, Debug)]
pub struct ContainmentLevel {
    /// The best strategy available.
    pub best_strategy: Strategy,
    /// Whether unprivileged user namespaces work.
    pub has_user_ns: bool,
    /// Whether `unshare` works with PID + mount + user namespaces.
    pub has_unshare: bool,
    /// Whether bubblewrap is installed and functional.
    pub has_bubblewrap: bool,
    /// Whether firejail is installed and functional.
    pub has_firejail: bool,
    /// Why mechanisms are unavailable, with how to fix it.
    pub diagnostics: Vec<String>,
}

/// The outcome of a probe: whether the mechanism works, or the message of the
/// error that kept the probe from running.
pub open spec fn probe_works(outcome: Result<bool, String>) -> bool {
    outcome matches Ok(b) && b
}

/// The diagnostic for a probe that could not run, with the error's message.
pub open spec fn probe_diagnostic(outcome: Result<bool, String>, prefix: Seq<char>, suffix: Seq<char>) -> Seq<Seq<char>> {
    match outcome {
        Err(msg) => seq![prefix + msg@ + suffix],
        Ok(_) => Seq::empty(),
    }
}

/// The diagnostics for three probe outcomes, in probe order.
pub open spec fn spec_diagnostics(
    unshare: Result<bool, String>,
    bubblewrap: Result<bool, String>,
    firejail: Result<bool, String>,
) -> Seq<Seq<char>> {
    probe_diagnostic(
        unshare,
        "unshare unavailable: "@,
        ". Fix: enable unprivileged user namespaces (sysctl kernel.unprivileged_userns_clone=1) or install bubblewrap."@,
    ) + probe_diagnostic(bubblewrap, "bubblewrap unavailable: "@, ". Fix: install bubblewrap."@)
        + probe_diagnostic(firejail, "firejail unavailable: "@, ". Fix: install firejail."@)
}

fn push_diagnostic(diags: &mut Vec<String>, outcome: &Result<bool, String>, prefix: &str, suffix: &str) -> (works: bool)
    ensures
        works == probe_works(*outcome),
        string_views(final(diags)@) == string_views(old(diags)@) + probe_diagnostic(*outcome, prefix@, suffix@),
{
    match outcome {
        Ok(b) => {
            assert(string_views(diags@) =~= string_views(diags@) + Seq::<Seq<char>>::empty());
            *b
        },
        Err(msg) => {
            let ghost before = diags@;
            let mut d = concat(prefix, msg.as_str());
            d.append(suffix);
            diags.push(d);
            assert(string_views(diags@) =~= string_views(before) + seq![prefix@ + msg@ + suffix@]);
            false
        },
    }
}

/// The containment level of the host, from the outcomes of the `unshare`,
/// bubblewrap and firejail probes (each run from [`unshare_probe`],
/// [`bubblewrap_probe`] and [`firejail_probe`] and judged by
/// [`probe_output_ok`], or the message of the error that kept it from
/// running).
pub fn probe_capabilities(
    unshare: &Result<bool, String>,
    bubblewrap: &Result<bool, String>,
    firejail: &Result<bool, String>,
) -> (level: ContainmentLevel)
    ensures
        level.has_unshare == probe_works(*unshare),
        level.has_bubblewrap == probe_works(*bubblewrap),
        level.has_firejail == probe_works(*firejail),
        level.has_user_ns == (level.has_unshare || level.has_bubblewrap),
        level.best_strategy == spec_best_strategy(level.has_unshare, level.has_bubblewrap, level.has_firejail),
        string_views(level.diagnostics@) == spec_diagnostics(*unshare, *bubblewrap, *firejail),
{
    let mut diagnostics: Vec<String> = Vec::new();
    let has_unshare = push_diagnostic(
        &mut diagnostics,
        unshare,
        "unshare unavailable: ",
        ". Fix: enable unprivileged user namespaces (sysctl kernel.unprivileged_userns_clone=1) or install bubblewrap.",
    );
    let has_bubblewrap = push_diagnostic(&mut diagnostics, bubblewrap, "bubblewrap unavailable: ", ". Fix: install bubblewrap.");
    let has_firejail = push_diagnostic(&mut diagnostics, firejail, "firejail unavailable: ", ". Fix: install firejail.");
    let has_user_ns = has_unshare || has_bubblewrap;
    let best_strategy = if has_bubblewrap {
        Strategy::Bubblewrap
    } else if has_unshare {
        Strategy::Unshare
    } else if has_firejail {
        Strategy::Firejail
    } else {
        Strategy::RlimitsOnly
    };
    assert(string_views(diagnostics@) =~= spec_diagnostics(*unshare, *bubblewrap, *firejail));
    ContainmentLevel { best_strategy, has_user_ns, has_unshare, has_bubblewrap, has_firejail, diagnostics }
}

/// The best containment strategy for the given probe outcomes.
pub fn available_strategy(
    unshare: &Result<bool, String>,
    bubblewrap: &Result<bool, String>,
    firejail: &Result<bool, String>,
) -> (s: Strategy)
    ensures
        s == spec_best_strategy(probe_works(*unshare), probe_works(*bubblewrap), probe_works(*firejail)),
{
    probe_capabilities(unshare, bubblewrap, firejail).best_strategy
}

/// The chosen strategy works on the host, or is resource limits only when
/// nothing works; bubblewrap wins whenever it works, and the choice is never
/// the strategy without containment.
pub proof fn lemma_best_strategy_is_available(has_unshare: bool, has_bubblewrap: bool, has_firejail: bool)
    ensures
        ({
            let s = spec_best_strategy(has_unshare, has_bubblewrap, has_firejail);
            &&& s == Strategy::Bubblewrap <==> has_bubblewrap
            &&& s == Strategy::Unshare ==> has_unshare
            &&& s == Strategy::Firejail ==> has_firejail
            &&& s == Strategy::RlimitsOnly <==> !has_unshare && !has_bubblewrap && !has_firejail
            &&& s != Strategy::Unconfined
        }),
{
}

/// `"true"` or `"false"`.
pub open spec fn bool_text(b: bool) -> Seq<char> {
    if b { "true"@ } else { "false"@ }
}

fn bool_str(b: bool) -> (r: &'static str)
    ensures
        r@ == bool_text(b),
{
    if b { "true" } else { "false" }
}

impl ContainmentLevel {
    /// The textual description of the level: the best strategy, the mechanisms
    /// that work, then each diagnostic after `"; "`.
    pub open spec fn spec_describe(&self) -> Seq<char> {
        self.describe_prefix() + diagnostics_text(string_views(self.diagnostics@))
    }

    /// The first part of the description.
    pub open spec fn describe_prefix(&self) -> Seq<char> {
        "ContainmentLevel(best="@ + spec_strategy_name(self.best_strategy) + ", unshare="@ + bool_text(
            self.has_unshare,
        ) + ", bubblewrap="@ + bool_text(self.has_bubblewrap) + ", firejail="@ + bool_text(self.has_firejail)
            + ")"@
    }

    /// The textual description of the level (what `Display` shows).
    pub fn to_string(&self) -> (r: String)
        ensures
            r@ == self.spec_describe(),
    {
        let mut s = concat("ContainmentLevel(best=", self.best_strategy.name());
        s.append(", unshare=");
        s.append(bool_str(self.has_unshare));
        s.append(", bubblewrap=");
        s.append(bool_str(self.has_bubblewrap));
        s.append(", firejail=");
        s.append(bool_str(self.has_firejail));
        s.append(")");
        let mut i: usize = 0;
        while i < self.diagnostics.len()
            invariant
                i <= self.diagnostics.len(),
                s@ == self.describe_prefix() + diagnostics_text(string_views(self.diagnostics@.take(i as int))),
            decreases self.diagnostics.len() - i,
        {
            s.append("; ");
            s.append(self.diagnostics[i].as_str());
            assert(string_views(self.diagnostics@.take(i + 1)).drop_last() =~= string_views(self.diagnostics@.take(i as int)));
            i = i + 1;
        }
        assert(self.diagnostics@.take(self.diagnostics.len() as int) == self.diagnostics@);
        s
    }
}

/// Each diagnostic after `"; "`, concatenated.
pub open spec fn diagnostics_text(d: Seq<Seq<char>>) -> Seq<char>
    decreases d.len(),
{
    if d.len() == 0 {
        Seq::empty()
    } else {
        diagnostics_text(d.drop_last()) + "; "@ + d.last()
    }
}

} // verus!
