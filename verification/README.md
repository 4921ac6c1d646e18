# v8_runner

Tooling for 1C:Enterprise projects: it drives the Designer, `ibcmd`, the Enterprise client and
EDT, reads what they report, and offers the commands to MCP clients over stdio and HTTP. The
library in `src/` is verified with Verus; `app/` is the ordinary Rust around it.

## Layout

- `src/text*.rs`, `src/time.rs`, `src/path.rs` - texts as sequences of characters, spans and
  moments, paths.
- `src/outside.rs` - every call into another crate or into an unspecified part of std, with what
  the library relies on.
- `src/config.rs`, `src/domain.rs`, `src/use_cases.rs`, `src/adapter_input.rs` - configuration,
  results, requests.
- `src/parsers/` - JUnit reports and the logs of the Designer, EDT, YAxUnit and Vanessa Automation.
- `src/platform/` - command lines of the utilities, running of processes and of interactive
  sessions, search for utilities, downloads.
- `src/output/` - JSON envelopes and the text timeline.
- `src/mcp/` - mapping of tool calls, the shared EDT session and its queue, syntax checks, limits
  on concurrent calls and HTTP sessions.
- `app/` - processes, threads, sockets, files and serialisation.

## How the parts meet

Whatever waits for the outside world is a machine in `src/`: it takes its state and an event and
gives the next state and what to ask for. `app/` performs what is asked for and hands the answer
back. Each step is specified exactly, and laws over all states stand at the end of each module as
public proof functions.
