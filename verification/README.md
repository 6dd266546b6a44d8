# starter_tauri_app

The verified core of a desktop shell (Tauri) that manages a private Node.js
runtime and a bundled local server.

- `src/` — the library, verified with Verus:
  - `artifact` — which Node distribution archive fits an OS/architecture pair;
  - `checksum` — the published checksum list, SHA-256 of an archive (via `sha2`
    and `hex`), case-insensitive comparison;
  - `pid` — the pid file format, with the law that reading gives back what was written;
  - `install` — the install flow as a state machine (download, verify, extract),
    with the law that only an archive whose checksum matches is extracted;
  - `server` — start, stop, uninstall and launch-time start flows as state machines;
  - `menu` — the menu bar as data and the meaning of each menu item;
  - `status`, `error`, `text` — reported status, errors, and text helpers.
- `tests/` — tests on concrete values.
- `app/` — the Tauri program: it performs the file, network and process work that
  the flows ask for and builds native menus from the menu description.
