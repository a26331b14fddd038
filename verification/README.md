# dsh_desktop

The desktop shell of DeepSeek Harness: a Tauri window around the official web
UI, which starts, reuses and stops a local `dsh web` service and installs its
runtime (Node.js and the DeepSeek Harness package) on first run.

- `src/` — the verified library (Verus): the service lifecycle as step
  functions (`harness`), runtime lookup and the data-directory layout
  (`config`), installation plans, install order and download progress
  (`download`), the command line, environment and readiness wait of the
  service (`launcher`), health and process-stop decisions (`probe`,
  `process`, `extract`), and the values sent to the front end (`bridge`).
- `app/` — the Tauri application around it: commands, window, tray, HTTP,
  archives, processes; it performs what the library's step functions ask for
  and hands back the outcomes.
- `tests/` — tests of the library on concrete values.
