//! The environment of the sandboxed process: validation of the variables a
//! configuration sets, and the plan of changes applied to the inherited
//! environment.
//!
//! The plan never lets a secret variable through: secret variables of the
//! host are removed (or, in allowlist mode, never copied), `env_set` cannot
//! set a secret, and `env_passthrough` cannot bring one back. Only the
//! sandbox's own control variables are set unconditionally.

use vstd::prelude::*;
use crate::config::{string_views, EnvMode, SandboxConfig, contains_string};
use crate::error::BuildCommandError;
use vstd::utf8::encode_utf8;
use crate::text::{chars_of, decimal, decimal_string, is_whitespace, is_ws};

verus! {

/// Upper bound, in bytes, of the value of a variable that the configuration sets.
pub const MAX_ENV_VALUE_BYTES: usize = 32768;

/// What makes an `env_set` entry invalid.
#[derive(Clone, Copy, Debug, PartialEq, Eq, Structural)]
pub enum EnvEntryProblem {
    /// The name is empty.
    EmptyName,
    /// The name holds `=`, NUL or whitespace.
    InvalidName,
    /// The value holds NUL.
    ValueContainsNul,
    /// The value is longer than [`MAX_ENV_VALUE_BYTES`] bytes.
    ValueTooLarge,
}

/// The length in bytes of the UTF-8 encoding of `s`, as `str::len` reports it.
pub open spec fn byte_len(s: Seq<char>) -> nat {
    (encode_utf8(s).len() as usize) as nat
}

/// The first problem of the entry `key = value`, whose value is `value_bytes` bytes long.
pub open spec fn spec_entry_problem(key: Seq<char>, value: Seq<char>, value_bytes: nat) -> Option<
    EnvEntryProblem,
> {
    if key.len() == 0 {
        Some(EnvEntryProblem::EmptyName)
    } else if key.contains('=') || key.contains('\0') || exists|i: int|
        0 <= i < key.len() && is_ws(#[trigger] key[i]) {
        Some(EnvEntryProblem::InvalidName)
    } else if value.contains('\0') {
        Some(EnvEntryProblem::ValueContainsNul)
    } else if value_bytes > MAX_ENV_VALUE_BYTES {
        Some(EnvEntryProblem::ValueTooLarge)
    } else {
        None
    }
}

/// The problem of the `i`-th `env_set` entry of `config`, if any.
pub open spec fn spec_env_set_problem(config: SandboxConfig, i: int) -> Option<EnvEntryProblem> {
    let (k, v) = config.env_set@[i];
    spec_entry_problem(k@, v@, byte_len(v@))
}

/// `e` is the error that reports `problem` for the variable named `key`.
pub open spec fn reports_problem(e: BuildCommandError, problem: EnvEntryProblem, key: Seq<char>) -> bool {
    match problem {
        EnvEntryProblem::EmptyName => e == BuildCommandError::EmptyEnvName,
        EnvEntryProblem::InvalidName => e matches BuildCommandError::InvalidEnvName { name } && name@ == key,
        EnvEntryProblem::ValueContainsNul => e matches BuildCommandError::EnvValueContainsNul { key: k } && k@ == key,
        EnvEntryProblem::ValueTooLarge => e matches BuildCommandError::EnvValueTooLarge { key: k, max_bytes }
            && k@ == key && max_bytes == MAX_ENV_VALUE_BYTES,
    }
}

/// Whether `c` occurs in `s`.
fn has_char(s: &Vec<char>, c: char) -> (r: bool)
    ensures
        r == s@.contains(c),
{
    let mut i: usize = 0;
    while i < s.len()
        invariant
            i <= s.len(),
            forall|k: int| 0 <= k < i ==> s@[k] != c,
        decreases s.len() - i,
    {
        if s[i] == c {
            return true;
        }
        i = i + 1;
    }
    false
}

/// Whether `s` holds a whitespace character.
fn has_whitespace(s: &Vec<char>) -> (r: bool)
    ensures
        r == exists|i: int| 0 <= i < s@.len() && is_ws(#[trigger] s@[i]),
{
    let mut i: usize = 0;
    while i < s.len()
        invariant
            i <= s.len(),
            forall|k: int| 0 <= k < i ==> !is_ws(#[trigger] s@[k]),
        decreases s.len() - i,
    {
        if is_whitespace(s[i]) {
            return true;
        }
        i = i + 1;
    }
    false
}

/// The first problem of the entry `key = value`.
pub fn entry_problem(key: &str, value: &str) -> (r: Option<EnvEntryProblem>)
    ensures
        r == spec_entry_problem(key@, value@, byte_len(value@)),
{
    let k = chars_of(key);
    let v = chars_of(value);
    if k.len() == 0 {
        Some(EnvEntryProblem::EmptyName)
    } else if has_char(&k, '=') || has_char(&k, '\0') || has_whitespace(&k) {
        Some(EnvEntryProblem::InvalidName)
    } else if has_char(&v, '\0') {
        Some(EnvEntryProblem::ValueContainsNul)
    } else if value.len() > MAX_ENV_VALUE_BYTES {
        Some(EnvEntryProblem::ValueTooLarge)
    } else {
        None
    }
}

/// Checks every variable that the configuration sets, in order, and reports
/// the first problem found.
pub fn validate_environment(config: &SandboxConfig) -> (r: Result<(), BuildCommandError>)
    ensures
        r is Ok <==> forall|i: int| 0 <= i < config.env_set@.len() ==> spec_env_set_problem(*config, i) is None,
        r matches Err(e) ==> exists|i: int|
            0 <= i < config.env_set@.len() && (forall|j: int|
                0 <= j < i ==> spec_env_set_problem(*config, j) is None) && ((#[trigger] spec_env_set_problem(
                *config,
                i,
            )) matches Some(p) && reports_problem(e, p, config.env_set@[i].0@)),
{
    let mut i: usize = 0;
    while i < config.env_set.len()
        invariant
            i <= config.env_set.len(),
            forall|j: int| 0 <= j < i ==> spec_env_set_problem(*config, j) is None,
        decreases config.env_set.len() - i,
    {
        let key = config.env_set[i].0.as_str();
        let value = config.env_set[i].1.as_str();
        match entry_problem(key, value) {
            None => {},
            Some(p) => {
                let name = String::from_str(key);
                let e = match p {
                    EnvEntryProblem::EmptyName => BuildCommandError::EmptyEnvName,
                    EnvEntryProblem::InvalidName => BuildCommandError::InvalidEnvName { name },
                    EnvEntryProblem::ValueContainsNul => BuildCommandError::EnvValueContainsNul { key: name },
                    EnvEntryProblem::ValueTooLarge => BuildCommandError::EnvValueTooLarge {
                        key: name,
                        max_bytes: MAX_ENV_VALUE_BYTES,
                    },
                };
                assert(spec_env_set_problem(*config, i as int) == Some(p));
                return Err(e);
            },
        }
        i = i + 1;
    }
    Ok(())
}

/// One change to the environment that the sandboxed process inherits.
#[derive(Clone, Debug, PartialEq, Eq)]
pub enum EnvOp {
    /// Remove the variable (`Command::env_remove`).
    Remove(String),
    /// Set the variable to the value (`Command::env`).
    Assign(String, String),
}

/// The changes to apply to the environment of the sandboxed process.
#[derive(Clone, Debug)]
pub struct EnvPlan {
    /// Start from an empty environment (`Command::env_clear`) instead of the inherited one.
    pub clear: bool,
    /// The changes, applied in order.
    pub ops: Vec<EnvOp>,
    /// The `env_set` variables that were refused because they are secrets.
    pub blocked: Vec<String>,
}

/// An environment change over character sequences.
pub enum EnvAction {
    /// Remove the variable.
    Remove(Seq<char>),
    /// Set the variable to the value.
    Assign(Seq<char>, Seq<char>),
}

/// The meaning of an [`EnvOp`].
pub open spec fn op_action(op: EnvOp) -> EnvAction {
    match op {
        EnvOp::Remove(k) => EnvAction::Remove(k@),
        EnvOp::Assign(k, v) => EnvAction::Assign(k@, v@),
    }
}

/// The meanings of a list of [`EnvOp`]s.
pub open spec fn op_actions(ops: Seq<EnvOp>) -> Seq<EnvAction> {
    ops.map_values(|op: EnvOp| op_action(op))
}

/// The character sequences of a list of variables.
pub open spec fn pair_views(v: Seq<(String, String)>) -> Seq<(Seq<char>, Seq<char>)> {
    v.map_values(|p: (String, String)| (p.0@, p.1@))
}

/// The environment described by a list of variables; a later entry wins.
pub open spec fn env_map(vars: Seq<(Seq<char>, Seq<char>)>) -> Map<Seq<char>, Seq<char>>
    decreases vars.len(),
{
    if vars.len() == 0 {
        Map::empty()
    } else {
        env_map(vars.drop_last()).insert(vars.last().0, vars.last().1)
    }
}

/// The environment after applying `actions` to `m`, in order.
pub open spec fn apply_actions(m: Map<Seq<char>, Seq<char>>, actions: Seq<EnvAction>) -> Map<
    Seq<char>,
    Seq<char>,
>
    decreases actions.len(),
{
    if actions.len() == 0 {
        m
    } else {
        let before = apply_actions(m, actions.drop_last());
        match actions.last() {
            EnvAction::Remove(k) => before.remove(k),
            EnvAction::Assign(k, v) => before.insert(k, v),
        }
    }
}

/// The environment that the sandboxed process receives from `plan` when the
/// host environment holds `host`.
pub open spec fn child_env(plan: EnvPlan, host: Seq<(Seq<char>, Seq<char>)>) -> Map<Seq<char>, Seq<char>> {
    let base = if plan.clear {
        Map::empty()
    } else {
        env_map(host)
    };
    apply_actions(base, op_actions(plan.ops@))
}

/// The changes derived from the host variables: in allowlist mode, the copies
/// of the passed-through variables that are not secret; in the other modes,
/// the removal of every secret variable.
pub open spec fn host_actions(config: SandboxConfig, host: Seq<(Seq<char>, Seq<char>)>) -> Seq<EnvAction>
    decreases host.len(),
{
    if host.len() == 0 {
        Seq::empty()
    } else {
        let before = host_actions(config, host.drop_last());
        let (k, v) = host.last();
        if config.env_mode == EnvMode::Allowlist {
            if string_views(config.env_passthrough@).contains(k) && !config.spec_is_secret(k) {
                before.push(EnvAction::Assign(k, v))
            } else {
                before
            }
        } else {
            if config.spec_is_secret(k) {
                before.push(EnvAction::Remove(k))
            } else {
                before
            }
        }
    }
}

/// The changes derived from `env_set`: every variable that is not secret.
pub open spec fn set_actions(config: SandboxConfig, vars: Seq<(Seq<char>, Seq<char>)>) -> Seq<EnvAction>
    decreases vars.len(),
{
    if vars.len() == 0 {
        Seq::empty()
    } else {
        let before = set_actions(config, vars.drop_last());
        let (k, v) = vars.last();
        if !config.spec_is_secret(k) {
            before.push(EnvAction::Assign(k, v))
        } else {
            before
        }
    }
}

/// The secret variables of `env_set`, which are refused.
pub open spec fn blocked_names(config: SandboxConfig, vars: Seq<(Seq<char>, Seq<char>)>) -> Seq<Seq<char>>
    decreases vars.len(),
{
    if vars.len() == 0 {
        Seq::empty()
    } else {
        let before = blocked_names(config, vars.drop_last());
        if config.spec_is_secret(vars.last().0) {
            before.push(vars.last().0)
        } else {
            before
        }
    }
}

/// The names of the sandbox's control variables.
pub open spec fn is_control_var(k: Seq<char>) -> bool {
    k == "SANTH_MAX_MEMORY"@ || k == "SANTH_MAX_CPU"@ || k == "SANTH_MAX_FDS"@ || k
        == "SANTH_MAX_PROCESSES"@ || k == "SANTH_WORK_DIR"@
}

/// The control variables: the limits of the configuration and the work directory.
pub open spec fn control_actions(config: SandboxConfig, work_dir: Seq<char>) -> Seq<EnvAction> {
    seq![
        EnvAction::Assign("SANTH_MAX_MEMORY"@, decimal(config.max_memory_bytes as nat)),
        EnvAction::Assign("SANTH_MAX_CPU"@, decimal(config.max_cpu_seconds as nat)),
        EnvAction::Assign("SANTH_MAX_FDS"@, decimal(config.max_fds as nat)),
        EnvAction::Assign("SANTH_MAX_PROCESSES"@, decimal(config.max_processes as nat)),
        EnvAction::Assign("SANTH_WORK_DIR"@, work_dir),
    ]
}

/// The plan for `config` on a host whose environment holds `host`, with the
/// work directory `work_dir`: host-derived changes, then `env_set`, then the
/// control variables.
pub open spec fn is_env_plan_for(
    plan: EnvPlan,
    config: SandboxConfig,
    host: Seq<(Seq<char>, Seq<char>)>,
    work_dir: Seq<char>,
) -> bool {
    &&& plan.clear == (config.env_mode == EnvMode::Allowlist)
    &&& op_actions(plan.ops@) == host_actions(config, host) + set_actions(
        config,
        pair_views(config.env_set@),
    ) + control_actions(config, work_dir)
    &&& string_views(plan.blocked@) == blocked_names(config, pair_views(config.env_set@))
}

/// Computes the environment plan of the sandboxed process.
pub fn env_plan(config: &SandboxConfig, host: &Vec<(String, String)>, work_dir: &str) -> (plan: EnvPlan)
    ensures
        is_env_plan_for(plan, *config, pair_views(host@), work_dir@),
{
    let allowlist = match config.env_mode {
        EnvMode::Allowlist => true,
        _ => false,
    };
    let mut ops: Vec<EnvOp> = Vec::new();
    let mut i: usize = 0;
    while i < host.len()
        invariant
            i <= host.len(),
            allowlist == (config.env_mode == EnvMode::Allowlist),
            op_actions(ops@) == host_actions(*config, pair_views(host@.take(i as int))),
        decreases host.len() - i,
    {
        let key = host[i].0.as_str();
        let value = host[i].1.as_str();
        let ghost before = ops@;
        assert(pair_views(host@.take(i + 1)).drop_last() == pair_views(host@.take(i as int)));
        assert(pair_views(host@.take(i + 1)).last() == (key@, value@));
        if allowlist {
            if contains_string(&config.env_passthrough, key) && !config.is_secret_env_var(key) {
                ops.push(EnvOp::Assign(String::from_str(key), String::from_str(value)));
                assert(op_actions(ops@) == op_actions(before).push(EnvAction::Assign(key@, value@)));
            }
        } else {
            if config.is_secret_env_var(key) {
                ops.push(EnvOp::Remove(String::from_str(key)));
                assert(op_actions(ops@) == op_actions(before).push(EnvAction::Remove(key@)));
            }
        }
        i = i + 1;
    }
    assert(host@.take(host.len() as int) == host@);
    let ghost host_part = ops@;
    let mut blocked: Vec<String> = Vec::new();
    let mut j: usize = 0;
    while j < config.env_set.len()
        invariant
            j <= config.env_set.len(),
            host_part.len() <= ops@.len(),
            ops@.take(host_part.len() as int) == host_part,
            op_actions(ops@.skip(host_part.len() as int)) == set_actions(
                *config,
                pair_views(config.env_set@.take(j as int)),
            ),
            string_views(blocked@) == blocked_names(*config, pair_views(config.env_set@.take(j as int))),
        decreases config.env_set.len() - j,
    {
        let key = config.env_set[j].0.as_str();
        let value = config.env_set[j].1.as_str();
        let ghost before = ops@;
        let ghost before_blocked = blocked@;
        assert(pair_views(config.env_set@.take(j + 1)).drop_last() == pair_views(
            config.env_set@.take(j as int),
        ));
        assert(pair_views(config.env_set@.take(j + 1)).last() == (key@, value@));
        if config.is_secret_env_var(key) {
            blocked.push(String::from_str(key));
            assert(string_views(blocked@) == string_views(before_blocked).push(key@));
        } else {
            ops.push(EnvOp::Assign(String::from_str(key), String::from_str(value)));
            assert(ops@.skip(host_part.len() as int) == before.skip(host_part.len() as int).push(
                ops@.last(),
            ));
            assert(op_actions(ops@.skip(host_part.len() as int)) == op_actions(
                before.skip(host_part.len() as int),
            ).push(EnvAction::Assign(key@, value@)));
            assert(ops@.take(host_part.len() as int) == before.take(host_part.len() as int));
        }
        j = j + 1;
    }
    assert(config.env_set@.take(config.env_set.len() as int) == config.env_set@);
    let ghost env_part = ops@;
    ops.push(EnvOp::Assign(String::from_str("SANTH_MAX_MEMORY"), decimal_string(config.max_memory_bytes)));
    ops.push(EnvOp::Assign(String::from_str("SANTH_MAX_CPU"), decimal_string(config.max_cpu_seconds)));
    ops.push(EnvOp::Assign(String::from_str("SANTH_MAX_FDS"), decimal_string(config.max_fds)));
    ops.push(EnvOp::Assign(String::from_str("SANTH_MAX_PROCESSES"), decimal_string(config.max_processes)));
    ops.push(EnvOp::Assign(String::from_str("SANTH_WORK_DIR"), String::from_str(work_dir)));
    proof {
        assert(env_part == host_part + env_part.skip(host_part.len() as int));
        assert(op_actions(env_part) == op_actions(host_part) + op_actions(env_part.skip(host_part.len() as int)));
        assert(op_actions(ops@) == op_actions(env_part) + control_actions(*config, work_dir@));
    }
    EnvPlan { clear: allowlist, ops, blocked }
}

/// Every variable that `actions` set satisfies `p`.
pub open spec fn assigns_only(actions: Seq<EnvAction>, p: spec_fn(Seq<char>) -> bool) -> bool {
    forall|i: int|
        0 <= i < actions.len() ==> match #[trigger] actions[i] {
            EnvAction::Assign(k, _) => p(k),
            EnvAction::Remove(_) => true,
        }
}

/// Every action of `actions` is a removal.
pub open spec fn removes_only(actions: Seq<EnvAction>) -> bool {
    forall|i: int| 0 <= i < actions.len() ==> (#[trigger] actions[i]) is Remove
}

/// `actions` remove `k`.
pub open spec fn removes_key(actions: Seq<EnvAction>, k: Seq<char>) -> bool {
    exists|i: int| 0 <= i < actions.len() && #[trigger] actions[i] == EnvAction::Remove(k)
}

proof fn lemma_apply_concat(m: Map<Seq<char>, Seq<char>>, a: Seq<EnvAction>, b: Seq<EnvAction>)
    ensures
        apply_actions(m, a + b) == apply_actions(apply_actions(m, a), b),
    decreases b.len(),
{
    if b.len() == 0 {
        assert(a + b =~= a);
    } else {
        lemma_apply_concat(m, a, b.drop_last());
        assert((a + b).drop_last() =~= a + b.drop_last());
        assert((a + b).last() == b.last());
    }
}

proof fn lemma_assigns_preserve(
    m: Map<Seq<char>, Seq<char>>,
    actions: Seq<EnvAction>,
    p: spec_fn(Seq<char>) -> bool,
)
    requires
        forall|k: Seq<char>| m.contains_key(k) ==> p(k),
        assigns_only(actions, p),
    ensures
        forall|k: Seq<char>| apply_actions(m, actions).contains_key(k) ==> p(k),
    decreases actions.len(),
{
    if actions.len() > 0 {
        let before = actions.drop_last();
        assert(assigns_only(before, p)) by {
            assert forall|i: int| 0 <= i < before.len() implies match #[trigger] before[i] {
                EnvAction::Assign(k, _) => p(k),
                EnvAction::Remove(_) => true,
            } by {
                assert(before[i] == actions[i]);
            }
        }
        lemma_assigns_preserve(m, before, p);
        let last = actions[actions.len() - 1];
        assert(last == actions.last());
        assert(match last {
            EnvAction::Assign(k, _) => p(k),
            EnvAction::Remove(_) => true,
        });
        let prev = apply_actions(m, before);
        assert(apply_actions(m, actions) == match last {
            EnvAction::Remove(k) => prev.remove(k),
            EnvAction::Assign(k, v) => prev.insert(k, v),
        });
    }
}

proof fn lemma_removes(m: Map<Seq<char>, Seq<char>>, actions: Seq<EnvAction>)
    requires
        removes_only(actions),
    ensures
        forall|k: Seq<char>|
            #[trigger] apply_actions(m, actions).contains_key(k) <==> m.contains_key(k)
                && !removes_key(actions, k),
    decreases actions.len(),
{
    if actions.len() > 0 {
        let before = actions.drop_last();
        assert(removes_only(before)) by {
            assert forall|i: int| 0 <= i < before.len() implies (#[trigger] before[i]) is Remove by {
                assert(before[i] == actions[i]);
            }
        }
        lemma_removes(m, before);
        let last = actions[actions.len() - 1];
        assert(last == actions.last());
        assert(last is Remove);
        let lk = last->Remove_0;
        let prev = apply_actions(m, before);
        assert(apply_actions(m, actions) == prev.remove(lk));
        assert forall|k: Seq<char>|
            #[trigger] apply_actions(m, actions).contains_key(k) <==> m.contains_key(k)
                && !removes_key(actions, k) by {
            assert(prev.contains_key(k) <==> m.contains_key(k) && !removes_key(before, k));
            if removes_key(before, k) {
                let i = choose|i: int| 0 <= i < before.len() && before[i] == EnvAction::Remove(k);
                assert(actions[i] == before[i]);
            }
            if k == lk {
                assert(actions[actions.len() - 1] == EnvAction::Remove(k));
            }
            if removes_key(actions, k) {
                let i = choose|i: int| 0 <= i < actions.len() && actions[i] == EnvAction::Remove(k);
                if i < actions.len() - 1 {
                    assert(before[i] == actions[i]);
                }
            }
        }
    }
}

proof fn lemma_env_map_keys(vars: Seq<(Seq<char>, Seq<char>)>, k: Seq<char>)
    requires
        env_map(vars).contains_key(k),
    ensures
        exists|j: int| 0 <= j < vars.len() && (#[trigger] vars[j]).0 == k,
    decreases vars.len(),
{
    if vars.len() > 0 {
        if vars.last().0 == k {
            assert(vars[vars.len() - 1].0 == k);
        } else {
            lemma_env_map_keys(vars.drop_last(), k);
            let j = choose|j: int| 0 <= j < vars.drop_last().len() && (#[trigger] vars.drop_last()[j]).0 == k;
            assert(vars[j] == vars.drop_last()[j]);
        }
    }
}

proof fn lemma_strip_host_actions(config: SandboxConfig, host: Seq<(Seq<char>, Seq<char>)>)
    requires
        config.env_mode != EnvMode::Allowlist,
    ensures
        removes_only(host_actions(config, host)),
        forall|j: int|
            0 <= j < host.len() && config.spec_is_secret((#[trigger] host[j]).0) ==> removes_key(
                host_actions(config, host),
                host[j].0,
            ),
    decreases host.len(),
{
    if host.len() > 0 {
        let prefix = host.drop_last();
        lemma_strip_host_actions(config, prefix);
        let before = host_actions(config, prefix);
        let acts = host_actions(config, host);
        assert(acts == before || acts == before.push(EnvAction::Remove(host.last().0)));
        assert forall|i: int| 0 <= i < acts.len() implies (#[trigger] acts[i]) is Remove by {
            if i < before.len() {
                assert(acts[i] == before[i]);
            }
        }
        assert forall|j: int|
            0 <= j < host.len() && config.spec_is_secret((#[trigger] host[j]).0) implies removes_key(
                acts,
                host[j].0,
            ) by {
            if j == host.len() - 1 {
                assert(acts[acts.len() - 1] == EnvAction::Remove(host[j].0));
            } else {
                assert(prefix[j] == host[j]);
                let i = choose|i: int| 0 <= i < before.len() && before[i] == EnvAction::Remove(prefix[j].0);
                assert(acts[i] == before[i]);
            }
        }
    }
}

proof fn lemma_allow_host_actions(config: SandboxConfig, host: Seq<(Seq<char>, Seq<char>)>)
    requires
        config.env_mode == EnvMode::Allowlist,
    ensures
        assigns_only(host_actions(config, host), |k: Seq<char>| !config.spec_is_secret(k)),
        forall|i: int| 0 <= i < host_actions(config, host).len() ==> match #[trigger] host_actions(config, host)[i] {
            EnvAction::Assign(k, _) => string_views(config.env_passthrough@).contains(k),
            EnvAction::Remove(_) => false,
        },
    decreases host.len(),
{
    if host.len() > 0 {
        let prefix = host.drop_last();
        lemma_allow_host_actions(config, prefix);
        let before = host_actions(config, prefix);
        let acts = host_actions(config, host);
        assert forall|i: int| 0 <= i < acts.len() implies match #[trigger] acts[i] {
            EnvAction::Assign(k, _) => !config.spec_is_secret(k) && string_views(config.env_passthrough@).contains(k),
            EnvAction::Remove(_) => false,
        } by {
            if i < before.len() {
                assert(acts[i] == before[i]);
            }
        }
    }
}

proof fn lemma_set_actions(config: SandboxConfig, vars: Seq<(Seq<char>, Seq<char>)>)
    ensures
        assigns_only(set_actions(config, vars), |k: Seq<char>| !config.spec_is_secret(k)),
        forall|i: int| 0 <= i < set_actions(config, vars).len() ==> match #[trigger] set_actions(config, vars)[i] {
            EnvAction::Assign(k, _) => exists|j: int| 0 <= j < vars.len() && (#[trigger] vars[j]).0 == k,
            EnvAction::Remove(_) => false,
        },
    decreases vars.len(),
{
    if vars.len() > 0 {
        let prefix = vars.drop_last();
        lemma_set_actions(config, prefix);
        let before = set_actions(config, prefix);
        let acts = set_actions(config, vars);
        assert forall|i: int| 0 <= i < acts.len() implies match #[trigger] acts[i] {
            EnvAction::Assign(k, _) => !config.spec_is_secret(k) && exists|j: int| 0 <= j < vars.len() && (#[trigger] vars[j]).0 == k,
            EnvAction::Remove(_) => false,
        } by {
            if i < before.len() {
                assert(acts[i] == before[i]);
                if let EnvAction::Assign(k, _) = acts[i] {
                    let j = choose|j: int| 0 <= j < prefix.len() && (#[trigger] prefix[j]).0 == k;
                    assert(vars[j] == prefix[j]);
                }
            } else {
                assert(vars[vars.len() - 1] == vars.last());
            }
        }
    }
}

proof fn lemma_weaken_assigns(a: Seq<EnvAction>, p: spec_fn(Seq<char>) -> bool, q: spec_fn(Seq<char>) -> bool)
    requires
        assigns_only(a, p),
        forall|k: Seq<char>| #[trigger] p(k) ==> q(k),
    ensures
        assigns_only(a, q),
{
    assert forall|i: int| 0 <= i < a.len() implies match #[trigger] a[i] {
        EnvAction::Assign(k, _) => q(k),
        EnvAction::Remove(_) => true,
    } by {
        match a[i] {
            EnvAction::Assign(k, _) => {
                assert(p(k));
            },
            EnvAction::Remove(_) => {},
        }
    }
}

/// No secret variable reaches the sandboxed process: every variable of the
/// environment that a plan produces is either not secret under the
/// configuration, or one of the sandbox's control variables. This holds in
/// every mode, whatever the host environment, `env_set` and
/// `env_passthrough` hold.
pub proof fn lemma_no_secret_reaches_child(
    plan: EnvPlan,
    config: SandboxConfig,
    host: Seq<(Seq<char>, Seq<char>)>,
    work_dir: Seq<char>,
)
    requires
        is_env_plan_for(plan, config, host, work_dir),
    ensures
        forall|k: Seq<char>|
            child_env(plan, host).contains_key(k) ==> !config.spec_is_secret(k) || is_control_var(k),
{
    let p = |k: Seq<char>| !config.spec_is_secret(k) || is_control_var(k);
    let not_secret = |k: Seq<char>| !config.spec_is_secret(k);
    let h = host_actions(config, host);
    let st = set_actions(config, pair_views(config.env_set@));
    let c = control_actions(config, work_dir);
    let base = if plan.clear { Map::<Seq<char>, Seq<char>>::empty() } else { env_map(host) };
    lemma_apply_concat(base, h + st, c);
    lemma_apply_concat(base, h, st);
    lemma_set_actions(config, pair_views(config.env_set@));
    lemma_weaken_assigns(st, not_secret, p);
    assert(assigns_only(c, p)) by {
        assert forall|i: int| 0 <= i < c.len() implies match #[trigger] c[i] {
            EnvAction::Assign(k, _) => p(k),
            EnvAction::Remove(_) => true,
        } by {}
    }
    let after_host = apply_actions(base, h);
    if config.env_mode == EnvMode::Allowlist {
        lemma_allow_host_actions(config, host);
        lemma_weaken_assigns(h, not_secret, p);
        lemma_assigns_preserve(base, h, p);
    } else {
        lemma_strip_host_actions(config, host);
        lemma_removes(base, h);
        assert(base == env_map(host));
        assert forall|k: Seq<char>| after_host.contains_key(k) implies p(k) by {
            if config.spec_is_secret(k) {
                assert(apply_actions(base, h).contains_key(k));
                assert(base.contains_key(k));
                lemma_env_map_keys(host, k);
                let j = choose|j: int| 0 <= j < host.len() && (#[trigger] host[j]).0 == k;
                assert(removes_key(h, host[j].0));
            }
        }
    }
    lemma_assigns_preserve(after_host, st, p);
    lemma_assigns_preserve(apply_actions(after_host, st), c, p);
    assert(op_actions(plan.ops@) == h + st + c);
}

/// In allowlist mode the sandboxed environment holds nothing but the
/// passed-through variables, the variables of `env_set`, and the control
/// variables.
pub proof fn lemma_allowlist_env_is_closed(
    plan: EnvPlan,
    config: SandboxConfig,
    host: Seq<(Seq<char>, Seq<char>)>,
    work_dir: Seq<char>,
)
    requires
        is_env_plan_for(plan, config, host, work_dir),
        config.env_mode == EnvMode::Allowlist,
    ensures
        forall|k: Seq<char>|
            child_env(plan, host).contains_key(k) ==> string_views(config.env_passthrough@).contains(k)
                || (exists|j: int| 0 <= j < config.env_set@.len() && (#[trigger] config.env_set@[j]).0@ == k)
                || is_control_var(k),
{
    let sets = pair_views(config.env_set@);
    let q = |k: Seq<char>| string_views(config.env_passthrough@).contains(k) || (exists|j: int|
        0 <= j < config.env_set@.len() && (#[trigger] config.env_set@[j]).0@ == k) || is_control_var(k);
    let h = host_actions(config, host);
    let st = set_actions(config, sets);
    let c = control_actions(config, work_dir);
    let base = Map::<Seq<char>, Seq<char>>::empty();
    lemma_apply_concat(base, h + st, c);
    lemma_apply_concat(base, h, st);
    lemma_allow_host_actions(config, host);
    assert(assigns_only(h, q)) by {
        assert forall|i: int| 0 <= i < h.len() implies match #[trigger] h[i] {
            EnvAction::Assign(k, _) => q(k),
            EnvAction::Remove(_) => true,
        } by {}
    }
    lemma_set_actions(config, sets);
    assert(assigns_only(st, q)) by {
        assert forall|i: int| 0 <= i < st.len() implies match #[trigger] st[i] {
            EnvAction::Assign(k, _) => q(k),
            EnvAction::Remove(_) => true,
        } by {
            if let EnvAction::Assign(k, _) = st[i] {
                let j = choose|j: int| 0 <= j < sets.len() && (#[trigger] sets[j]).0 == k;
                assert(sets[j].0 == config.env_set@[j].0@);
            }
        }
    }
    assert(assigns_only(c, q)) by {
        assert forall|i: int| 0 <= i < c.len() implies match #[trigger] c[i] {
            EnvAction::Assign(k, _) => q(k),
            EnvAction::Remove(_) => true,
        } by {}
    }
    lemma_assigns_preserve(base, h, q);
    lemma_assigns_preserve(apply_actions(base, h), st, q);
    lemma_assigns_preserve(apply_actions(apply_actions(base, h), st), c, q);
}

/// The control variables always reach the sandboxed process with the limits
/// of the configuration and the work directory, whatever else the plan does.
pub proof fn lemma_control_vars_set(
    plan: EnvPlan,
    config: SandboxConfig,
    host: Seq<(Seq<char>, Seq<char>)>,
    work_dir: Seq<char>,
)
    requires
        is_env_plan_for(plan, config, host, work_dir),
    ensures
        child_env(plan, host).contains_key("SANTH_MAX_MEMORY"@),
        child_env(plan, host)["SANTH_MAX_MEMORY"@] == decimal(config.max_memory_bytes as nat),
        child_env(plan, host).contains_key("SANTH_MAX_CPU"@),
        child_env(plan, host)["SANTH_MAX_CPU"@] == decimal(config.max_cpu_seconds as nat),
        child_env(plan, host).contains_key("SANTH_MAX_FDS"@),
        child_env(plan, host)["SANTH_MAX_FDS"@] == decimal(config.max_fds as nat),
        child_env(plan, host).contains_key("SANTH_MAX_PROCESSES"@),
        child_env(plan, host)["SANTH_MAX_PROCESSES"@] == decimal(config.max_processes as nat),
        child_env(plan, host).contains_key("SANTH_WORK_DIR"@),
        child_env(plan, host)["SANTH_WORK_DIR"@] == work_dir,
{
    reveal_strlit("SANTH_MAX_MEMORY");
    reveal_strlit("SANTH_MAX_CPU");
    reveal_strlit("SANTH_MAX_FDS");
    reveal_strlit("SANTH_MAX_PROCESSES");
    reveal_strlit("SANTH_WORK_DIR");
    let h = host_actions(config, host);
    let st = set_actions(config, pair_views(config.env_set@));
    let c = control_actions(config, work_dir);
    let base = if plan.clear { Map::<Seq<char>, Seq<char>>::empty() } else { env_map(host) };
    lemma_apply_concat(base, h + st, c);
    let m0 = apply_actions(base, h + st);
    assert(c.drop_last().drop_last().drop_last().drop_last().drop_last() =~= Seq::<EnvAction>::empty());
    reveal_with_fuel(apply_actions, 6);
    assert("SANTH_MAX_MEMORY"@.len() != "SANTH_MAX_CPU"@.len());
    assert("SANTH_MAX_MEMORY"@.len() != "SANTH_MAX_FDS"@.len());
    assert("SANTH_MAX_MEMORY"@.len() != "SANTH_MAX_PROCESSES"@.len());
    assert("SANTH_MAX_MEMORY"@.len() != "SANTH_WORK_DIR"@.len());
    assert("SANTH_MAX_CPU"@[10] != "SANTH_MAX_FDS"@[10]);
    assert("SANTH_MAX_CPU"@.len() != "SANTH_MAX_PROCESSES"@.len());
    assert("SANTH_MAX_CPU"@.len() != "SANTH_WORK_DIR"@.len());
    assert("SANTH_MAX_FDS"@.len() != "SANTH_MAX_PROCESSES"@.len());
    assert("SANTH_MAX_FDS"@.len() != "SANTH_WORK_DIR"@.len());
    assert("SANTH_MAX_PROCESSES"@.len() != "SANTH_WORK_DIR"@.len());
    assert(apply_actions(m0, c) == m0.insert("SANTH_MAX_MEMORY"@, decimal(config.max_memory_bytes as nat)).insert(
        "SANTH_MAX_CPU"@,
        decimal(config.max_cpu_seconds as nat),
    ).insert("SANTH_MAX_FDS"@, decimal(config.max_fds as nat)).insert(
        "SANTH_MAX_PROCESSES"@,
        decimal(config.max_processes as nat),
    ).insert("SANTH_WORK_DIR"@, work_dir));
}

/// The entries of `m` whose names satisfy `p`.
pub open spec fn keep_names(m: Map<Seq<char>, Seq<char>>, p: spec_fn(Seq<char>) -> bool) -> Map<Seq<char>, Seq<char>> {
    Map::new(|k: Seq<char>| m.dom().contains(k) && p(k), |k: Seq<char>| m[k])
}

/// The environment that a sandboxed process starts from, before `env_set`
/// and the control variables: in allowlist mode the host variables that are
/// passed through and not secret; in the other modes every host variable
/// that is not secret.
pub open spec fn spec_base_env(config: SandboxConfig, host: Seq<(Seq<char>, Seq<char>)>) -> Map<Seq<char>, Seq<char>> {
    if config.env_mode == EnvMode::Allowlist {
        keep_names(
            env_map(host),
            |k: Seq<char>| string_views(config.env_passthrough@).contains(k) && !config.spec_is_secret(k),
        )
    } else {
        keep_names(env_map(host), |k: Seq<char>| !config.spec_is_secret(k))
    }
}

proof fn lemma_allowlist_base(config: SandboxConfig, host: Seq<(Seq<char>, Seq<char>)>)
    requires
        config.env_mode == EnvMode::Allowlist,
    ensures
        apply_actions(Map::empty(), host_actions(config, host)) == spec_base_env(config, host),
    decreases host.len(),
{
    let p = |k: Seq<char>| string_views(config.env_passthrough@).contains(k) && !config.spec_is_secret(k);
    if host.len() == 0 {
        assert(keep_names(env_map(host), p) =~= Map::empty());
    } else {
        let h = host.drop_last();
        lemma_allowlist_base(config, h);
        let (k, v) = host.last();
        if p(k) {
            assert(host_actions(config, host) == host_actions(config, h).push(EnvAction::Assign(k, v)));
            assert(host_actions(config, host).drop_last() == host_actions(config, h));
            assert(keep_names(env_map(host), p) =~= keep_names(env_map(h), p).insert(k, v));
        } else {
            assert(keep_names(env_map(host), p) =~= keep_names(env_map(h), p));
        }
    }
}

/// Some variable of `host` is named `x`.
pub open spec fn has_name(host: Seq<(Seq<char>, Seq<char>)>, x: Seq<char>) -> bool {
    exists|i: int| 0 <= i < host.len() && (#[trigger] host[i]).0 == x
}

proof fn lemma_strip_base(config: SandboxConfig, m: Map<Seq<char>, Seq<char>>, host: Seq<(Seq<char>, Seq<char>)>)
    requires
        config.env_mode != EnvMode::Allowlist,
    ensures
        apply_actions(m, host_actions(config, host)) == Map::new(
            |k: Seq<char>| m.dom().contains(k) && !(config.spec_is_secret(k) && has_name(host, k)),
            |k: Seq<char>| m[k],
        ),
    decreases host.len(),
{
    let q = |h: Seq<(Seq<char>, Seq<char>)>| Map::new(
        |k: Seq<char>| m.dom().contains(k) && !(config.spec_is_secret(k) && has_name(h, k)),
        |k: Seq<char>| m[k],
    );
    if host.len() == 0 {
        assert(q(host) =~= m);
    } else {
        let h = host.drop_last();
        lemma_strip_base(config, m, h);
        let (k, v) = host.last();
        assert forall|x: Seq<char>| #[trigger] has_name(host, x) <==> (has_name(h, x) || x == k) by {
            if has_name(host, x) {
                let i = choose|i: int| 0 <= i < host.len() && (#[trigger] host[i]).0 == x;
                if i < h.len() {
                    assert(h[i] == host[i]);
                }
            }
            if has_name(h, x) {
                let i = choose|i: int| 0 <= i < h.len() && (#[trigger] h[i]).0 == x;
                assert(host[i] == h[i]);
            }
            if x == k {
                assert(host[host.len() - 1].0 == x);
            }
        }
        if config.spec_is_secret(k) {
            assert(host_actions(config, host) == host_actions(config, h).push(EnvAction::Remove(k)));
            assert(host_actions(config, host).drop_last() == host_actions(config, h));
            assert(q(host) =~= q(h).remove(k));
        } else {
            assert(q(host) =~= q(h));
        }
    }
}

/// The environment of a sandboxed process in one statement: its starting
/// environment (see [`spec_base_env`]), then the variables of `env_set`
/// that are not secret, in order (a later one wins), then the control
/// variables, which always win.
pub proof fn lemma_child_env_formula(
    plan: EnvPlan,
    config: SandboxConfig,
    host: Seq<(Seq<char>, Seq<char>)>,
    work_dir: Seq<char>,
)
    requires
        is_env_plan_for(plan, config, host, work_dir),
    ensures
        child_env(plan, host) == apply_actions(
            apply_actions(spec_base_env(config, host), set_actions(config, pair_views(config.env_set@))),
            control_actions(config, work_dir),
        ),
{
    let h = host_actions(config, host);
    let st = set_actions(config, pair_views(config.env_set@));
    let c = control_actions(config, work_dir);
    let base0 = if plan.clear { Map::<Seq<char>, Seq<char>>::empty() } else { env_map(host) };
    lemma_apply_concat(base0, h + st, c);
    lemma_apply_concat(base0, h, st);
    if config.env_mode == EnvMode::Allowlist {
        lemma_allowlist_base(config, host);
    } else {
        lemma_strip_base(config, env_map(host), host);
        assert forall|k: Seq<char>| env_map(host).dom().contains(k) implies has_name(host, k) by {
            lemma_env_map_keys(host, k);
        }
        assert(apply_actions(env_map(host), h) =~= spec_base_env(config, host));
    }
}

proof fn lemma_set_last_wins(
    config: SandboxConfig,
    m: Map<Seq<char>, Seq<char>>,
    vars: Seq<(Seq<char>, Seq<char>)>,
    i: int,
)
    requires
        0 <= i < vars.len(),
        !config.spec_is_secret(vars[i].0),
        forall|j: int| i < j < vars.len() ==> (#[trigger] vars[j]).0 != vars[i].0,
    ensures
        apply_actions(m, set_actions(config, vars)).contains_key(vars[i].0),
        apply_actions(m, set_actions(config, vars))[vars[i].0] == vars[i].1,
    decreases vars.len(),
{
    let before = vars.drop_last();
    let acts = set_actions(config, vars);
    let prev = set_actions(config, before);
    let (k, v) = vars.last();
    if i == vars.len() - 1 {
        assert(acts == prev.push(EnvAction::Assign(k, v)));
        assert(acts.drop_last() == prev);
    } else {
        assert(before[i] == vars[i]);
        assert forall|j: int| i < j < before.len() implies (#[trigger] before[j]).0 != before[i].0 by {
            assert(before[j] == vars[j]);
        }
        lemma_set_last_wins(config, m, before, i);
        assert(vars[vars.len() - 1].0 != vars[i].0);
        if !config.spec_is_secret(k) {
            assert(acts == prev.push(EnvAction::Assign(k, v)));
            assert(acts.drop_last() == prev);
        } else {
            assert(acts == prev);
        }
    }
}

/// A value given to `env_set` reaches the sandboxed process unchanged: for
/// an entry `(k, v)` of `env_set` whose name is neither secret nor a
/// control variable, and that no later entry names again, the child's
/// environment maps `k` to `v`, whatever the host environment and the mode.
pub proof fn lemma_env_set_value_reaches_child(
    plan: EnvPlan,
    config: SandboxConfig,
    host: Seq<(Seq<char>, Seq<char>)>,
    work_dir: Seq<char>,
    i: int,
)
    requires
        is_env_plan_for(plan, config, host, work_dir),
        0 <= i < config.env_set@.len(),
        !config.spec_is_secret(config.env_set@[i].0@),
        !is_control_var(config.env_set@[i].0@),
        forall|j: int| i < j < config.env_set@.len() ==> (#[trigger] config.env_set@[j]).0@ != config.env_set@[i].0@,
    ensures
        child_env(plan, host).contains_key(config.env_set@[i].0@),
        child_env(plan, host)[config.env_set@[i].0@] == config.env_set@[i].1@,
{
    let vars = pair_views(config.env_set@);
    let k = config.env_set@[i].0@;
    assert(vars[i] == (k, config.env_set@[i].1@));
    assert forall|j: int| i < j < vars.len() implies (#[trigger] vars[j]).0 != vars[i].0 by {
        assert(vars[j].0 == config.env_set@[j].0@);
    }
    lemma_child_env_formula(plan, config, host, work_dir);
    let m0 = apply_actions(spec_base_env(config, host), set_actions(config, vars));
    lemma_set_last_wins(config, spec_base_env(config, host), vars, i);
    let c = control_actions(config, work_dir);
    assert(c.drop_last().drop_last().drop_last().drop_last().drop_last() =~= Seq::<EnvAction>::empty());
    reveal_with_fuel(apply_actions, 6);
    assert(apply_actions(m0, c) == m0.insert("SANTH_MAX_MEMORY"@, decimal(config.max_memory_bytes as nat)).insert(
        "SANTH_MAX_CPU"@,
        decimal(config.max_cpu_seconds as nat),
    ).insert("SANTH_MAX_FDS"@, decimal(config.max_fds as nat)).insert(
        "SANTH_MAX_PROCESSES"@,
        decimal(config.max_processes as nat),
    ).insert("SANTH_WORK_DIR"@, work_dir));
}

} // verus!
