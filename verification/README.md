# herdr core

The decision logic of the herdr terminal multiplexer's helpers, written in
Verus: every function in `src/` carries a contract that states what it
returns, and the laws the library keeps are proof functions checked by the
verifier.

Layout:

- `src/` — the verified library.
  - `text`, `order`, `assoc`: character sequences, lexicographic and numeric
    orderings with verified sorts, string-keyed association lists.
  - `build_info`, `browser`, `tab`, `github`, `timestamp`, `fleet_ops`:
    build identity, command-line argument handling, GitHub URL and token
    parsing, RFC 3339 stamps, and the fleet-ops status bar.
  - `spinner`, `pane_template`, `template`: spinner styles and categories,
    built-in pane layouts and the steps that apply them, workspace template
    validation.
  - `settings_state`, `settings_config`, `settings_catalog`,
    `settings_rows`, `settings_input`, `settings_mouse`, `settings_persist`:
    the settings screen — its rows, what activating a row asks for, key and
    mouse handling, and how each setting is written to the configuration
    file.
  - `pi_sessions`, `clipboard_history`, `ipc`: the Pi session watcher, the
    clipboard history's decisions, and the meaning of local-stream reads.
- `tests/` — tests of the library on concrete values.
- `app/` — the code around the library: the build environment, files,
  subprocesses, sockets, the clipboard database, headless Chrome, and the
  serde views of library types.
