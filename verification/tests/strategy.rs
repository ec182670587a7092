use procjail::Strategy;
use std::convert::TryFrom;

const ALL: [Strategy; 5] =
    [Strategy::Unconfined, Strategy::RlimitsOnly, Strategy::Unshare, Strategy::Bubblewrap, Strategy::Firejail];

#[test]
fn strategy_display_is_nonempty() {
    for s in ALL {
        let txt = s.to_string();
        assert!(!txt.is_empty(), "strategy display must not be empty");
    }
}

#[test]
fn strategy_pid_isolation_matrix() {
    assert!(!Strategy::Unconfined.has_pid_isolation());
    assert!(!Strategy::RlimitsOnly.has_pid_isolation());
    assert!(Strategy::Unshare.has_pid_isolation());
    assert!(Strategy::Bubblewrap.has_pid_isolation());
    assert!(Strategy::Firejail.has_pid_isolation());
}

#[test]
fn strategy_network_isolation_matrix() {
    assert!(!Strategy::Unconfined.has_network_isolation());
    assert!(!Strategy::RlimitsOnly.has_network_isolation());
    assert!(Strategy::Unshare.has_network_isolation());
    assert!(Strategy::Bubblewrap.has_network_isolation());
    assert!(Strategy::Firejail.has_network_isolation());
}

#[test]
fn strategy_fs_isolation_matrix() {
    assert!(!Strategy::Unconfined.has_fs_isolation());
    assert!(!Strategy::RlimitsOnly.has_fs_isolation());
    assert!(!Strategy::Unshare.has_fs_isolation());
    assert!(Strategy::Bubblewrap.has_fs_isolation());
    assert!(Strategy::Firejail.has_fs_isolation());
}

#[test]
fn strategy_mount_namespace_matrix() {
    assert!(!Strategy::Unconfined.has_mount_namespace());
    assert!(!Strategy::RlimitsOnly.has_mount_namespace());
    assert!(Strategy::Unshare.has_mount_namespace());
    assert!(Strategy::Bubblewrap.has_mount_namespace());
    assert!(Strategy::Firejail.has_mount_namespace());
}

#[test]
fn strategy_fs_isolation_honest() {
    assert!(!Strategy::Unshare.has_fs_isolation());
    assert!(Strategy::Bubblewrap.has_fs_isolation());
    assert!(Strategy::Firejail.has_fs_isolation());
    assert!(Strategy::Unshare.has_mount_namespace());
}

#[test]
fn names_are_canonical() {
    assert_eq!(Strategy::Unshare.name(), "unshare");
    assert_eq!(Strategy::Bubblewrap.name(), "bubblewrap");
    assert_eq!(Strategy::Firejail.name(), "firejail");
    assert_eq!(Strategy::RlimitsOnly.name(), "rlimits-only");
    assert_eq!(Strategy::Unconfined.name(), "none");
}

#[test]
fn names_parse_back() {
    for s in ALL {
        assert_eq!(Strategy::parse(s.name()), Some(s));
        assert_eq!(Strategy::try_from(s.name()), Ok(s));
    }
}

#[test]
fn aliases_parse() {
    assert_eq!(Strategy::parse("bwrap"), Some(Strategy::Bubblewrap));
    assert_eq!(Strategy::parse("rlimits_only"), Some(Strategy::RlimitsOnly));
    assert_eq!(Strategy::parse("rlimits"), Some(Strategy::RlimitsOnly));
    assert_eq!(Strategy::parse("Bubblewrap"), None);
    assert_eq!(Strategy::parse(""), None);
    assert!(Strategy::try_from("docker").is_err());
}
