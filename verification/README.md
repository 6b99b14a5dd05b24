# DSH Desktop

The verified core of a desktop shell around the DeepSeek Harness (`dsh`), and the program that
runs it. The shell launches the web server of the Harness from the published package or from a
local repository, waits until it is really up, shows it in windows of its own, and ends it together
with everything that it started.

- `src/` is the library, verified with Verus. It decides: the commands that are launched and their
  `PATH`, when the server counts as up, what starting, stopping and upgrading lead to, and what
  happens to windows on each event. It touches neither processes nor windows.
- `app/` performs what the library decides: processes, sockets, files, and windows through Tauri.
- `tests/` runs the library on concrete values.

The library relies on three functions that it does not prove: `String::from_utf8_lossy`,
`String::from_utf16_lossy` and `serde_json::from_str`. What is claimed of each stands above its
wrapper in `src/text.rs` and `src/theme.rs`.
