# codex-driver

Experimental headless driver for the Codex agent. A client sends `ClientCommand` values over one
channel and receives `ServerEvent` values over another; `headless-codex` is a command line on top
of it, with a single-turn and an interactive mode.

Every session runs in danger mode: the agent never asks for approval and may touch everything.

## Layout

- `src/` holds what the driver and its command line decide, with contracts that Verus checks.
  - `command`, `event`, `protocol`, `changes`, `path`: the values that go back and forth. Paths are
    compared and shown as on Unix.
  - `translate`: what a message of the agent becomes for the client.
  - `agent`, `stream`: the agent loop and the event stream as state machines.
  - `config`, `startup`: the overrides for a session, the order in which it is started, and the
    threads that carry commands in and events out.
  - `render`, `cli`: what is printed of an event, what a typed line means, and the exit code.
  - `laws`, `cli_laws`: what holds of the driver and of the command line as a whole.
  - `text`: trimming, numbers, and the printed forms taken from std.
- `app/` holds the threads, the channels and the calls into the Codex crates. `lib.rs` offers them
  to other programs as `SessionHandle` and `SessionStartup`; `main.rs` is the command line
  `headless-codex` with its arguments and its terminal.
- `tests/` runs the library on concrete values.

## What is trusted

Three functions of `src/text.rs` call std and are believed, not proved: `quote` and
`show_duration` (std's `{:?}` of a string and of a `Duration`) and `from_utf8_lossy`.
