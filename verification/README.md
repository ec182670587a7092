# procjail

A process sandbox for running untrusted code in real runtimes, with its core
verified in Verus.

- `src/` is the verified library: the containment strategies and the choice of
  the best one from probe outcomes (`strategy`, `detect`); the command that
  starts a sandboxed process under each strategy (`command`); the environment
  the child receives, with the proof that no secret reaches it (`env`); the
  configuration and its builder (`config`); the seccomp allowlist and its
  compilation through `seccompiler` (`seccomp`); the cgroup writes, kill
  targets, watchdog steps and exit codes (`process`); the protocol that
  sequences a spawn and kills the process on any later failure (`spawn`); the parsing of `/proc`
  and cgroup files (`procfs`); raw BPF programs (`sandbox`); and the text
  primitives these are written with (`text`). The watchdog's cancellation
  signal (`watchdog`) lives in `src/` too, but it is a thin layer over std's
  `Mutex` and `Condvar`, and nothing is proved of its state.
- `app/` runs what the library decides: it spawns processes, runs the probes,
  reads `/proc`, writes cgroup files, makes the system calls, and loads the
  configuration from TOML.
- `tests/` exercises the library on concrete values.
