# railroad

A guard between a coding agent and its tools. Before a tool call runs, the
pre-tool hook answers allow, deny or ask; after it runs, the post-tool hook
records it in an audit trace. The command line lists traces, plans rollbacks
from snapshots and shows the file locks held by agent sessions.

Layout:

- `src/` — the verified library (Verus):
  - `types.rs` — hook events, the policy settings read by the decisions, answers, trace entries;
  - `hook/pre_tool.rs` — the pre-tool verdict (path fence first, then the rules), input summaries, the decision trace entry, and the laws that tie them together;
  - `hook/post_tool.rs` — the trace entry of a completed call;
  - `trace_dir.rs` — the one trace directory under the home directory that both hooks write to;
  - `rollback.rs` — which rollback a set of command-line options asks for (no options: list the latest session; a session alone: restore all of it);
  - `locks.rs` — lock listing: grouping by session, short session ids, heartbeat ages;
  - `history.rs` — the recent-entries window of the log command, status labels;
  - `text.rs` — character-level truncation, comparison and decimal numerals;
  - `clock.rs` — the wall clock and RFC 3339 timestamps through `chrono`.
- `tests/` — tests of the library on concrete values.
- `app/` — the command line and the I/O around the hooks. It reaches the
  services that this crate does not define (configuration loading, rule
  evaluation, the path fence, snapshots, the trace log, installation, the
  dashboard) through `app/services.rs`.
