# starship (verified core)

The decision logic of a few starship prompt modules, written in Verus and
proved against its contracts:

- `src/modules/rust.rs`: which Rust toolchain is in effect (rustup's order of
  precedence, directory overrides on Unix and on Windows, toolchain files) and which `rustc` version
  it provides, read from the toolchain's files or from `rustc`/`rustup` output
  without letting `rustc` install a toolchain. The work that needs the file
  system or a process is asked for step by step (`Step::Ask`) and done by the
  caller.
- `src/modules/cmd_duration.rs`: whether the last command's duration shows,
  how it is rendered, and how its end is announced (terminal escape sequences
  or a desktop notification).
- `src/modules/custom_wasm.rs`: the checks made before a WebAssembly component
  module is run, whether the component's `is-enabled` lets it show, how its
  answers are used, and the shell that runs a `when` command.
- `src/modules/mod.rs`: the list of modules and their descriptions (each one
  has its own), detection of a
  project's files, and when a module reports the time it took.
- `src/configs/`: every module's settings and their defaults.
- `src/text.rs`, `src/path.rs`, `src/formatter.rs`, `src/utils.rs`: the text,
  path, version-format and duration models the modules are stated over.

`app/` runs these against the running system: environment variables, files,
`rustc`/`rustup`, shells, and desktop notifications.
