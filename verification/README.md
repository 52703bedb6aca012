# npx-bin-helper, verified

Generates the shell commands that put a project's `node_modules/.bin` on
`PATH` when the shell enters the project, and take it off again when it
leaves. The decisions are made in `src/` and proved with Verus; `app/` reads
the environment, looks at the file system, parses the command line and prints.

- `src/text.rs`: splitting and joining `:`-separated lists, with their models
  and round-trip lemmas.
- `src/paths.rs`: a project's `node_modules/.bin` directory (through
  `std::path::PathBuf::push`) and the parent of a path (through
  `std::path::Path::parent`), both by the rules of the target platform.
- `src/lib.rs`: `Platform` and its list separator, `strip_bin_path`, the scan
  of the recorded bin directories, the single-command generator
  `gen_command_by` and `format_command`.
- `src/generate.rs`: `gen_env_settings_by`, its specification
  `env_settings_spec`, and the laws: the bin list behaves as a stack, an
  update is idempotent, leaving a project restores `PATH`, old bin directories
  leave `PATH`, and the two generators agree.
- `src/shells.rs`, `src/shells/`: the supported shells, and the law that each
  setup script calls back with a name that resolves to its shell.
- `src/commands/`: the lines the `env` subcommand prints.
- `src/utils.rs`: Git Bash helpers (through `std::path::Path::components`).

`app/` splits `PATH` and `_NPX_BIN` with `std::env::split_paths` and tells the
library which platform it runs on.
