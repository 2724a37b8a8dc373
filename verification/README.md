# packs

A Verus library with the decision logic of the `packs` tool, and a thin
command-line program around it.

- `src/timespan.rs` — `TimeSpan`, nanosecond spans over the range of `Duration`.
- `src/runnable.rs` — `RunnableEntry` (name, timeout, task) and the `State` / `Lifetime` enums.
- `src/lifecycle.rs` — `Builder` / `Lifecycle`: building refuses runnables whose
  timeout exceeds the shutdown timeout and duplicate names; `shutdown_result`
  judges a finished run.
- `src/cli.rs` — subcommand names and the plan for locating the configuration file.
- `app/` — clap argument handling, logging setup, JSON configuration, pcap device
  listing and the tokio runner of lifecycles.
