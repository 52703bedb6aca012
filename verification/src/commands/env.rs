//! The `env` subcommand: the commands that set `_NPX_BIN` and `PATH`.
use vstd::prelude::*;

use crate::generate::{combined_path, settings_view, EnvironmentSettings};
use crate::shells::Shell;
use crate::ENV_NAME;

pub mod format;

verus! {

/// The lines that the `env` subcommand prints for the new settings: none
/// when there is nothing to set; otherwise one that sets `_NPX_BIN` to `bin`
/// and one that sets `PATH` to [`combined_path`] of `bin` and `path`.
pub open spec fn env_lines<S: Shell>(shell: S, settings: Option<(Seq<char>, Seq<char>)>) -> Seq<
    Seq<char>,
> {
    match settings {
        None => Seq::<Seq<char>>::empty(),
        Some((bin, path)) => seq![
            shell.spec_set_env(ENV_NAME@, bin),
            shell.spec_set_env("PATH"@, combined_path(shell.spec_separator(), bin, path)),
        ],
    }
}

/// The commands, one per line, that bring the shell's `_NPX_BIN` and `PATH`
/// to `settings`.
pub fn env_commands<S: Shell>(shell: &S, settings: Option<EnvironmentSettings>) -> (lines: Vec<
    String,
>)
    ensures
        lines.deep_view() == env_lines(*shell, settings_view(settings)),
{
    let mut lines: Vec<String> = Vec::new();
    match settings {
        None => {
            assert(lines.deep_view() =~= Seq::<Seq<char>>::empty());
        },
        Some(settings) => {
            let combined = if settings.bin.as_str().is_empty() {
                settings.path.clone()
            } else {
                let mut c = settings.bin.clone();
                c.append(shell.env_separator_str());
                c.append(settings.path.as_str());
                c
            };
            lines.push(shell.set_env(ENV_NAME, settings.bin.as_str()));
            lines.push(shell.set_env("PATH", combined.as_str()));
            assert(lines.deep_view() =~= env_lines(*shell, settings_view(Some(settings))));
        },
    }
    lines
}

} // verus!
