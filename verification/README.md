# jiji-do

A command launcher for the jiji / niri Wayland compositor: one keybind opens a
fuzzel menu of every verb the environment supports, and each verb is also a
subcommand for direct keybindings. The focused window, workspace and activity
are captured once, before any picker can take the focus, and every verb acts
on that snapshot.

## Layout

- `src/` — the library, verified with Verus.
  - `capabilities.rs` — the four capability flags and the probe decision.
  - `registry.rs` — the verbs, their requirements, the category-ordered
    `enabled` list, lookup by name, and the laws that tie them together.
  - `launcher.rs` — the launch as a state machine: socket gate, snapshot
    first, menu or direct dispatch, `--debug` report.
  - `protocol.rs` — effects a verb asks for (run, pick, prompt, confirm,
    fetch, deliver, print) and the events that answer them.
  - `verbs/` — one file per verb: a spec of its behaviour and the step
    function proved against it; `verbs/mod.rs` dispatches and states the
    laws every verb keeps (cancel completes, failures end the verb, the
    snapshot is never re-read).
  - `niri.rs`, `snapshot.rs`, `menu.rs`, `cli.rs`, `completions.rs` —
    compositor payload rows and invocations, the snapshot, picker
    read-back, the command-line model and the fish completion text.
  - `text.rs`, `order.rs`, `invocation.rs`, `error.rs` — strings, stable
    ordering, process invocations and errors.
- `app/` — the binary: argument parsing (clap), JSON payloads (serde),
  running processes and fuzzel, and the loop that performs each effect the
  library asks for.
- `tests/` — tests of the library through its public interface.
