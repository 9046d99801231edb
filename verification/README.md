# opencode-orchestrator-mcp

The logic of an orchestrator that runs and watches `OpenCode` sessions for a caller, written and
proved in Verus.

A caller starts or resumes a session with `run`, which comes back when the session is finished, or
when the session or one of the sessions below it needs a permission or an answer. The caller then
uses `respond_permission` or `respond_question`, which go on watching. Further tools list sessions,
agents and commands, and describe one session.

## Layout

- `src/` holds the verified library. It never talks to a server: state machines take one answer or
  event at a time and name the next action.
  - `api`, `types`, `errors`: plain values.
  - `request`, `run_model`, `run`, `run_laws`: a supervised run, from its input to its outcome.
  - `scan`, `lineage`, `blockers`, `latch`, `idle`: which requests wait for the caller, and when an
    idle session counts as finished.
  - `transcript`, `delta_buffer`: tying streamed text to the command that was sent.
  - `outcome`, `format`, `records`: what is handed back, shown and logged.
  - `selection`, `respond`: which request a caller answers, and what follows.
  - `sessions`, `catalog`, `tools`, `text`: listings, the tools, and text helpers.
- `tests/` runs the library against scripted servers and on single values.
- `app/` carries out the actions with `tokio` and `opencode_rs`, and serves the tools.

Functions named `law_...` state what holds of the library as a whole.
