# ever_living

The core of the Ever-Living menu-bar assistant: the logic that keeps its
Ruby sidecar service running, proved with Verus.

- `src/` — the verified library.
  - `text`: whitespace trimming, line splitting, decimal rendering and
    `u32` reading, each against a specification of what `std` does.
  - `listing`: the process ids of a `pgrep` listing, each once.
  - `paths`: joining and cutting file paths as text.
  - `preferences`: the preferences, their defaults and where they live.
  - `shell`: the menu-bar decisions (language, tray, menu, status, window
    address and scripts).
  - `sidecar`: where the sidecar program is looked for, its files, the pid
    file's text, and its messages.
  - `search`: looking for the sidecar program, candidate by candidate, then
    with `which`.
  - `lifecycle_model`, `lifecycle`: sweeping away running sidecars, starting
    and stopping the service, as state machines; a driver performs the
    action each state asks for and hands back the outcome.
  - `lifecycle_laws`: what every run of those machines satisfies.
- `app/` — the Tauri application around the library: windows, tray, I/O,
  signals and HTTP, driving the library's state machines.
- `tests/` — tests of the library on concrete values.
