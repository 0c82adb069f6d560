# tempcheck

Reads Linux thermal sensors, logs readings to SQLite, and answers MCP tool
calls (`get_current_temperature@1`, `analyze_temperature@1`) and a small web UI
about live and historical temperatures.

## Layout

- `src/` — the verified library (Verus):
  - `text.rs`: trimming, decimal parsing and printing, prefix/substring search,
    lexicographic order and insertion into a sorted list, lowercase hex,
    splitting into lines;
  - `time.rs`: UTC instants as chrono holds them, with parsing, formatting and
    subtraction of hours through chrono;
  - `config.rs`: the commands and the configuration drawn from them;
  - `collector.rs`: which `/sys/class/thermal` entries are zones and which
    `/sys/class/hwmon` files are temperature inputs, their order, when the
    sensors are missing, and how a file becomes a reading;
  - `gpu.rs`: the `nvidia-smi` query and the readings in its output;
  - `storage.rs`: the store's refusals (empty range, row limit) and its errors;
  - `audit.rs`: audit events and SHA-256 parameter fingerprints;
  - `mcp/server.rs`: authorization, the analysis window, the response cap, error
    mapping and audit events of the MCP tools, and the order of each tool call
    (invocation event, work, result event, answer) as a step function;
  - `web.rs`: the history window and HTTP statuses of the web UI;
  - `daemon.rs`: what the logging daemon does after each event.
- `app/` — the program around it: clap, sysfs reads, running `nvidia-smi`,
  SQLite, rmcp, axum, tokio, tracing, serde.
- `tests/` — tests of the library.
