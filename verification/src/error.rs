//! Errors of building the command that starts a sandboxed process.

use vstd::prelude::*;

use crate::text::{debug_quoted, debug_str, decimal, decimal_string};

verus! {

/// Why the command for a sandboxed process could not be built.
#[derive(Clone, Debug, PartialEq, Eq)]
pub enum BuildCommandError {
    /// The work directory must be an absolute path.
    WorkDirNotAbsolute { path: String },
    /// The harness path must not be empty.
    HarnessPathEmpty,
    /// The harness path must be an absolute path.
    HarnessPathNotAbsolute { path: String },
    /// Environment variable names must not be empty.
    EmptyEnvName,
    /// Environment variable names must not hold `=`, NUL or whitespace.
    InvalidEnvName { name: String },
    /// Environment variable values must not hold NUL.
    EnvValueContainsNul { key: String },
    /// Environment variable values are bounded in size.
    EnvValueTooLarge { key: String, max_bytes: usize },
    /// Host paths of bind mounts must be absolute.
    MountHostNotAbsolute { mount_kind: &'static str, path: String },
    /// A path could not be canonicalized (missing component, symlink loop).
    CanonicalizationFailed { path: String },
    /// A custom provider refused the configuration.
    ProviderRejected { name: String, reason: String },
}

/// The content of a [`BuildCommandError`], over character sequences.
pub enum BuildError {
    /// See [`BuildCommandError::WorkDirNotAbsolute`].
    WorkDirNotAbsolute(Seq<char>),
    /// See [`BuildCommandError::HarnessPathEmpty`].
    HarnessPathEmpty,
    /// See [`BuildCommandError::HarnessPathNotAbsolute`].
    HarnessPathNotAbsolute(Seq<char>),
    /// See [`BuildCommandError::EmptyEnvName`].
    EmptyEnvName,
    /// See [`BuildCommandError::InvalidEnvName`].
    InvalidEnvName(Seq<char>),
    /// See [`BuildCommandError::EnvValueContainsNul`].
    EnvValueContainsNul(Seq<char>),
    /// See [`BuildCommandError::EnvValueTooLarge`].
    EnvValueTooLarge(Seq<char>, usize),
    /// See [`BuildCommandError::MountHostNotAbsolute`]: the mount kind and the path.
    MountHostNotAbsolute(Seq<char>, Seq<char>),
    /// See [`BuildCommandError::CanonicalizationFailed`].
    CanonicalizationFailed(Seq<char>),
    /// See [`BuildCommandError::ProviderRejected`]: the provider's name and its reason.
    ProviderRejected(Seq<char>, Seq<char>),
}

impl View for BuildCommandError {
    type V = BuildError;

    open spec fn view(&self) -> BuildError {
        match self {
            BuildCommandError::WorkDirNotAbsolute { path } => BuildError::WorkDirNotAbsolute(path@),
            BuildCommandError::HarnessPathEmpty => BuildError::HarnessPathEmpty,
            BuildCommandError::HarnessPathNotAbsolute { path } => BuildError::HarnessPathNotAbsolute(path@),
            BuildCommandError::EmptyEnvName => BuildError::EmptyEnvName,
            BuildCommandError::InvalidEnvName { name } => BuildError::InvalidEnvName(name@),
            BuildCommandError::EnvValueContainsNul { key } => BuildError::EnvValueContainsNul(key@),
            BuildCommandError::EnvValueTooLarge { key, max_bytes } => BuildError::EnvValueTooLarge(
                key@,
                *max_bytes,
            ),
            BuildCommandError::MountHostNotAbsolute { mount_kind, path } =>
                BuildError::MountHostNotAbsolute(mount_kind@, path@),
            BuildCommandError::CanonicalizationFailed { path } => BuildError::CanonicalizationFailed(path@),
            BuildCommandError::ProviderRejected { name, reason } => BuildError::ProviderRejected(
                name@,
                reason@,
            ),
        }
    }
}

/// The message of a build error (what its `Display` shows).
pub open spec fn spec_build_error_text(e: BuildError) -> Seq<char> {
    match e {
        BuildError::WorkDirNotAbsolute(path) => "work_dir must be an absolute path, got: "@ + path,
        BuildError::HarnessPathEmpty => "harness_path must not be empty"@,
        BuildError::HarnessPathNotAbsolute(path) => "harness_path must be an absolute path, got: "@
            + path,
        BuildError::EmptyEnvName => "environment variable name must not be empty"@,
        BuildError::InvalidEnvName(name) => "environment variable name contains invalid characters: "@
            + debug_quoted(name),
        BuildError::EnvValueContainsNul(key) => "environment variable value contains NUL byte for key "@
            + debug_quoted(key),
        BuildError::EnvValueTooLarge(key, max_bytes) => "environment variable value for "@
            + debug_quoted(key) + " exceeds "@ + decimal(max_bytes as nat) + " bytes"@,
        BuildError::MountHostNotAbsolute(kind, path) => kind
            + " host path must be absolute, got: "@ + path,
        BuildError::CanonicalizationFailed(path) => "path canonicalization failed: "@ + path
            + ". Fix: resolve symlinks and ensure the path exists before sandbox spawn."@,
        BuildError::ProviderRejected(name, reason) => "custom provider '"@ + name
            + "' rejected sandbox config: "@ + reason,
    }
}

impl BuildCommandError {
    /// The message of the error (what `Display` shows).
    pub fn to_string(&self) -> (r: String)
        ensures
            r@ == spec_build_error_text(self@),
    {
        match self {
            BuildCommandError::WorkDirNotAbsolute { path } => {
                let mut s = String::from_str("work_dir must be an absolute path, got: ");
                s.append(path.as_str());
                s
            },
            BuildCommandError::HarnessPathEmpty => String::from_str("harness_path must not be empty"),
            BuildCommandError::HarnessPathNotAbsolute { path } => {
                let mut s = String::from_str("harness_path must be an absolute path, got: ");
                s.append(path.as_str());
                s
            },
            BuildCommandError::EmptyEnvName => String::from_str(
                "environment variable name must not be empty",
            ),
            BuildCommandError::InvalidEnvName { name } => {
                let mut s = String::from_str("environment variable name contains invalid characters: ");
                let q = debug_str(name.as_str());
                s.append(q.as_str());
                s
            },
            BuildCommandError::EnvValueContainsNul { key } => {
                let mut s = String::from_str("environment variable value contains NUL byte for key ");
                let q = debug_str(key.as_str());
                s.append(q.as_str());
                s
            },
            BuildCommandError::EnvValueTooLarge { key, max_bytes } => {
                let mut s = String::from_str("environment variable value for ");
                let q = debug_str(key.as_str());
                s.append(q.as_str());
                s.append(" exceeds ");
                let n = decimal_string(*max_bytes as u64);
                s.append(n.as_str());
                s.append(" bytes");
                s
            },
            BuildCommandError::MountHostNotAbsolute { mount_kind, path } => {
                let mut s = String::from_str(*mount_kind);
                s.append(" host path must be absolute, got: ");
                s.append(path.as_str());
                s
            },
            BuildCommandError::CanonicalizationFailed { path } => {
                let mut s = String::from_str("path canonicalization failed: ");
                s.append(path.as_str());
                s.append(
                    ". Fix: resolve symlinks and ensure the path exists before sandbox spawn.",
                );
                s
            },
            BuildCommandError::ProviderRejected { name, reason } => {
                let mut s = String::from_str("custom provider '");
                s.append(name.as_str());
                s.append("' rejected sandbox config: ");
                s.append(reason.as_str());
                s
            },
        }
    }
}

/// The error that a custom provider's refusal becomes: the provider's name
/// and the message of its error.
pub fn provider_rejected(name: &str, reason: &str) -> (e: BuildCommandError)
    ensures
        e@ == BuildError::ProviderRejected(name@, reason@),
{
    BuildCommandError::ProviderRejected { name: String::from_str(name), reason: String::from_str(reason) }
}

} // verus!
