# wire

wire deploys NixOS systems to the nodes of a hive. This crate holds its
deployment logic as a Verus library, with contracts that Verus proves:

- `logbuffer`: splitting command output into lines, whatever the chunks.
- `matcher`, `pty`, `watch`, `interactive`: watching a command that runs in a
  terminal for its start, success and failure needles, echoing prompts,
  keeping its stdout and error messages, and deciding what its stdin thread
  forwards.
- `nix_output`, `nix_log`: reading nix's log lines and deciding what is
  logged, at which level, and which errors are kept.
- `status`, `log_format`: the progress line of a deployment and the log
  lines written above it.
- `steps`, `activate`, `evaluate`, `build_step`, `push`, `node`: the steps
  that apply a goal to a node, which of them run, in which order, and what
  they hand on to each other.
- `commands`, `nix_eval`: the command lines that the steps run.
- `hive`, `cli`, `persistent`: where the hive is, which nodes a command line
  selects, and forced local builds.
- `keys`, `agent`: key specs, their framing for the key agent, and the
  agent's rollback session.

`app/` is the command line program around the library: argument parsing,
evaluating the hive with nix, running commands over `sh` and `ssh`, and the
log subscriber.
