# sysmon

A small system-resource monitor — a tray application that raises CPU, memory and
disk alerts, and `sysmon-mcp`, a Model Context Protocol server that reports
numeric metrics over JSON-RPC 2.0 on stdio — with its decision logic verified in
Verus.

- `src/` — the verified library:
  - `config.rs`: the whole-number and switch settings, their defaults and their
    validation (clamping), with the laws of validation;
  - `notifier.rs`: the alert state machine (high-CPU streaks, per-kind cooldowns)
    over a monotonic clock in nanoseconds, with its laws over runs of checks;
  - `monitor.rs`: which disk and which process a snapshot reports, and the
    counting of process entries and of output lines;
  - `server.rs`: the JSON-RPC request dispatch, tool names, parameters and
    error replies;
  - `shell.rs`: what the tray menu and a click on the tray icon do.
- `app/` — the program around it: reading and writing JSON, sampling the machine
  with `sysinfo`, configuration files, all fractional arithmetic and formatting,
  and the Tauri tray shell.
- `tests/` — tests of the library.
