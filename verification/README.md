# Sekiro tools launcher

A Linux launcher that installs and starts speedrun tools (LiveSplit, Save
Organizer, Practice Tool, Save Helper, SekiroTool) beside Sekiro through
Steam and Proton.

The decisions of the launcher live in a library verified with Verus
(`src/`); the window, the tray icon, the network and the file system live in
a thin program around it (`app/`).

## Library (`src/`)

- `app.rs` — the application state and what every event does to it
  (`AppState::update`), with the laws of the state machine.
- `screen.rs`, `ui.rs` — what the window shows for a state.
- `config.rs` — the configuration, its tolerant loading, the game
  directories and the prefix resolution.
- `manifest.rs` — the tool list and the remote fetch with its fallback.
- `selection.rs` — the tool selection and the setup report.
- `setup.rs` — the decisions of a setup run (the .NET runtime first, then
  the tools with retries, cancellation).
- `tools.rs` — where tools go, which file is a tool's executable, archive
  handling, downloads and the .NET runtime installation.
- `proton_setup.rs`, `report.rs` — GE-Proton release lookup, checksum,
  directory choosers, and the texts of background work.
- `launch.rs`, `wine.rs` — finding the game, Proton and wine, the launch
  commands, the wait for the game window and the tool launches.
- `tray.rs`, `toast.rs` — the tray menu and icon pixels, toast lines.
- `text.rs`, `paths.rs` — text and path operations specified over `Seq<char>`.

Calls into `shellexpand`, `toml`, `sha2` and `image` stand behind trusted
wrappers whose contracts are stated in their doc comments.

## Program (`app/`)

`main.rs` starts the iced window (`gui.rs`), which feeds events to the
library and carries out the actions it returns; `system.rs` and `files.rs`
do the I/O, `tray_host.rs` runs the tray icon.
