//! Containment strategies and what each of them isolates.

use vstd::prelude::*;
use crate::text::str_eq;

verus! {

/// A containment mechanism for the sandboxed process, from the strongest
/// filesystem isolation to none at all.
#[derive(Clone, Copy, Debug, PartialEq, Eq, Hash, Structural)]
pub enum Strategy {
    /// Linux namespaces through `unshare` (PID, network, mount, user).
    Unshare,
    /// A bubblewrap (`bwrap`) container with an empty tmpfs root.
    Bubblewrap,
    /// A firejail sandbox with a private work directory.
    Firejail,
    /// Resource limits only; no namespace isolation.
    RlimitsOnly,
    /// No containment beyond what every strategy applies before exec.
    Unconfined,
}

/// The canonical lower-case name of a strategy.
pub open spec fn spec_strategy_name(s: Strategy) -> Seq<char> {
    match s {
        Strategy::Unshare => "unshare"@,
        Strategy::Bubblewrap => "bubblewrap"@,
        Strategy::Firejail => "firejail"@,
        Strategy::RlimitsOnly => "rlimits-only"@,
        Strategy::Unconfined => "none"@,
    }
}

/// The strategy that a textual name denotes; the accepted names are the
/// canonical names and the aliases `bwrap`, `rlimits_only` and `rlimits`.
pub open spec fn spec_parse_strategy(s: Seq<char>) -> Option<Strategy> {
    if s == "unshare"@ {
        Some(Strategy::Unshare)
    } else if s == "bubblewrap"@ || s == "bwrap"@ {
        Some(Strategy::Bubblewrap)
    } else if s == "firejail"@ {
        Some(Strategy::Firejail)
    } else if s == "rlimits-only"@ || s == "rlimits_only"@ || s == "rlimits"@ {
        Some(Strategy::RlimitsOnly)
    } else if s == "none"@ {
        Some(Strategy::Unconfined)
    } else {
        Option::None
    }
}

/// The error of parsing a name that denotes no strategy.
#[derive(Clone, Copy, Debug, PartialEq, Eq, Structural)]
pub struct UnknownStrategy;

impl Strategy {
    /// The canonical name of the strategy.
    pub fn name(&self) -> (r: &'static str)
        ensures
            r@ == spec_strategy_name(*self),
    {
        match self {
            Strategy::Unshare => "unshare",
            Strategy::Bubblewrap => "bubblewrap",
            Strategy::Firejail => "firejail",
            Strategy::RlimitsOnly => "rlimits-only",
            Strategy::Unconfined => "none",
        }
    }

    /// The canonical name of the strategy as an owned string.
    pub fn to_string(&self) -> (r: String)
        ensures
            r@ == spec_strategy_name(*self),
    {
        String::from_str(self.name())
    }

    /// Whether the sandboxed process gets its own PID namespace.
    pub fn has_pid_isolation(&self) -> (r: bool)
        ensures
            r == (*self == Strategy::Unshare || *self == Strategy::Bubblewrap || *self
                == Strategy::Firejail),
    {
        match self {
            Strategy::Unshare | Strategy::Bubblewrap | Strategy::Firejail => true,
            Strategy::RlimitsOnly | Strategy::Unconfined => false,
        }
    }

    /// Whether the sandboxed process is cut off from external networks.
    pub fn has_network_isolation(&self) -> (r: bool)
        ensures
            r == (*self == Strategy::Unshare || *self == Strategy::Bubblewrap || *self
                == Strategy::Firejail),
    {
        match self {
            Strategy::Unshare | Strategy::Bubblewrap | Strategy::Firejail => true,
            Strategy::RlimitsOnly | Strategy::Unconfined => false,
        }
    }

    /// Whether the host filesystem is hidden from the sandboxed process.
    /// A mount namespace alone (`unshare`) keeps every inherited mount visible.
    pub fn has_fs_isolation(&self) -> (r: bool)
        ensures
            r == (*self == Strategy::Bubblewrap || *self == Strategy::Firejail),
    {
        match self {
            Strategy::Bubblewrap | Strategy::Firejail => true,
            Strategy::Unshare | Strategy::RlimitsOnly | Strategy::Unconfined => false,
        }
    }

    /// Whether the sandboxed process gets its own mount namespace.
    pub fn has_mount_namespace(&self) -> (r: bool)
        ensures
            r == (*self == Strategy::Unshare || *self == Strategy::Bubblewrap || *self
                == Strategy::Firejail),
    {
        match self {
            Strategy::Unshare | Strategy::Bubblewrap | Strategy::Firejail => true,
            Strategy::RlimitsOnly | Strategy::Unconfined => false,
        }
    }

    /// The strategy that `s` names, if any.
    pub fn parse(s: &str) -> (r: Option<Strategy>)
        ensures
            r == spec_parse_strategy(s@),
    {
        if str_eq(s, "unshare") {
            Some(Strategy::Unshare)
        } else if str_eq(s, "bubblewrap") || str_eq(s, "bwrap") {
            Some(Strategy::Bubblewrap)
        } else if str_eq(s, "firejail") {
            Some(Strategy::Firejail)
        } else if str_eq(s, "rlimits-only") || str_eq(s, "rlimits_only") || str_eq(s, "rlimits") {
            Some(Strategy::RlimitsOnly)
        } else if str_eq(s, "none") {
            Some(Strategy::Unconfined)
        } else {
            Option::None
        }
    }
}

impl<'a> TryFrom<&'a str> for Strategy {
    type Error = UnknownStrategy;

    fn try_from(s: &'a str) -> (r: Result<Strategy, UnknownStrategy>) {
        match Strategy::parse(s) {
            Some(st) => Ok(st),
            Option::None => Err(UnknownStrategy),
        }
    }
}

impl<'a> vstd::std_specs::convert::TryFromSpecImpl<&'a str> for Strategy {
    open spec fn obeys_try_from_spec() -> bool {
        true
    }

    open spec fn try_from_spec(s: &'a str) -> Result<Strategy, UnknownStrategy> {
        match spec_parse_strategy(s@) {
            Some(st) => Ok(st),
            Option::None => Err(UnknownStrategy),
        }
    }
}

/// Every strategy's canonical name parses back to that strategy.
pub proof fn lemma_name_parse_roundtrip(s: Strategy)
    ensures
        spec_parse_strategy(spec_strategy_name(s)) == Some(s),
{
    reveal_strlit("unshare");
    reveal_strlit("bubblewrap");
    reveal_strlit("bwrap");
    reveal_strlit("firejail");
    reveal_strlit("rlimits-only");
    reveal_strlit("rlimits_only");
    reveal_strlit("rlimits");
    reveal_strlit("none");
    match s {
        Strategy::Unshare => {},
        Strategy::Bubblewrap => {
            assert("bubblewrap"@.len() != "unshare"@.len());
        },
        Strategy::Firejail => {
            assert("firejail"@.len() != "unshare"@.len());
            assert("firejail"@.len() != "bubblewrap"@.len());
            assert("firejail"@.len() != "bwrap"@.len());
        },
        Strategy::RlimitsOnly => {
            assert("rlimits-only"@.len() != "unshare"@.len());
            assert("rlimits-only"@.len() != "bubblewrap"@.len());
            assert("rlimits-only"@.len() != "bwrap"@.len());
            assert("rlimits-only"@.len() != "firejail"@.len());
        },
        Strategy::Unconfined => {
            assert("none"@.len() != "unshare"@.len());
            assert("none"@.len() != "bubblewrap"@.len());
            assert("none"@.len() != "bwrap"@.len());
            assert("none"@.len() != "firejail"@.len());
            assert("none"@.len() != "rlimits-only"@.len());
            assert("none"@.len() != "rlimits_only"@.len());
            assert("none"@.len() != "rlimits"@.len());
        },
    }
}

} // verus!
