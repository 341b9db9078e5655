# rozsda

A small GTK editor for Rust projects ("Rozsda IDE"), split in two:

- `src/` is the verified library (Verus). It keeps what the editor knows of the
  open source file (path and Keccak-512 fingerprint of its contents) and of the
  open Cargo project, and takes the editor's decisions: window titles, whether
  closing asks about unsaved changes, where a save goes and what it records,
  which folder becomes the project, what a key press does, which arguments
  `cargo` runs with and how its output is reported.
  - `digest.rs`: the Keccak-512 fingerprint (`tiny_keccak`).
  - `paths.rs`: the parent directory and final component of a path (`std::path`).
  - `state.rs`: `ActiveMetadata`, `ProjectMetadata`.
  - `cargo.rs`: `CargoAction`, command arguments, the output report.
  - `keys.rs`: key presses and the full-screen state.
  - `editor.rs`: titles, unsaved changes, saving, projects.
- `app/` is the GTK program around it: windows, menus, dialogs, file I/O and
  running `cargo`.
- `tests/` runs the library on concrete values.
