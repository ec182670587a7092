//! # procjail
//!
//! The verified core of a process sandbox for running untrusted code in real
//! runtimes (node, python, a shell): the containment strategies and how the
//! best available one is chosen, the command that starts a sandboxed process
//! under each of them, the environment it receives (secrets never reach it),
//! the kernel limits and the seccomp allowlist applied before it executes, its
//! cgroup, and the decisions that kill it or report how it ended.
//!
//! Everything that touches the host (running probes, reading `/proc`, writing
//! cgroup files, spawning) happens outside; the values it produces are handed
//! in here.

pub mod strategy;
pub mod text;
pub mod seccomp;
pub mod config;
pub mod error;
pub mod env;
pub mod command;
pub mod detect;
pub mod procfs;
pub mod process;
pub mod spawn;
pub mod watchdog;
pub mod sandbox;

pub use config::{EnvMode, SandboxConfig, SandboxConfigBuilder, DEFAULT_SECRET_ENV_VARS};
pub use detect::{available_strategy, probe_capabilities, ContainmentLevel};
pub use error::BuildCommandError;
pub use process::CgroupV2;
pub use sandbox::{BpfInstruction, ProcjailSandbox};
pub use strategy::Strategy;
pub use watchdog::WatchdogCancel;
