//! The new values of `_NPX_BIN` and `PATH` for the directory the shell is in.
use vstd::prelude::*;

use crate::paths::{bin_dir, bin_dir_of, grandparent};
use crate::shells::{Bash, Shell};
use crate::text::{
    join,
    join_strs,
    lemma_join_first,
    lemma_join_split,
    lemma_split_concat,
    lemma_split_join,
    lemma_split_single,
    lemma_without_concat,
    lemma_without_entries,
    lemma_without_none,
    split,
    split_str,
    starts_with,
    str_eq,
    without,
    without_strs,
};
use crate::{
    command_text,
    find_kept,
    gen_command_spec,
    grandparents,
    keep_from,
    lemma_keep_from_bounds,
    lemma_scan_kept_at,
    lemma_scan_kept_none,
    list_separator,
    slice_from,
    strip_bin_path,
    GenCommandError,
    Platform,
};

verus! {

/// Which case of [`gen_env_settings_by`] applied.
#[derive(Debug, Clone, Copy, PartialEq, Eq, Structural)]
pub enum GenerateStatus {
    /// No bin directory was recorded and the directory holds `node_modules`:
    /// its bin directory is put on `PATH`.
    EmptyVarHasModules,
    /// No bin directory was recorded and the directory holds no
    /// `node_modules`: nothing to do.
    EmptyVarNoModules,
    /// The directory's bin directory is already the first one recorded.
    AlreadyAdded,
    /// The directory holds no `node_modules` but lies inside the project of
    /// the first recorded bin directory: nothing to do.
    KeepVar,
    /// The directory holds no `node_modules` and lies outside the project of
    /// the first recorded bin directory: all recorded ones leave `PATH`.
    ResetPath,
    /// The directory's bin directory goes in front of the part of the
    /// recorded ones that is kept.
    ConcatDirs,
    /// The directory's bin directory was recorded further down: the recorded
    /// ones from there on are kept.
    UseOldDirsOnly,
    /// None of the recorded bin directories is kept: the directory's own is
    /// the only one.
    UseNewDirOnly,
}

/// New values for `_NPX_BIN` (`bin`) and `PATH` (`path`); `PATH` is to be set
/// to `bin`, the shell's separator and `path` (see [`combined_path`]).
#[derive(Debug)]
pub struct EnvironmentSettings {
    pub bin: String,
    pub path: String,
}

impl EnvironmentSettings {
    /// Settings with the given values.
    pub fn new(bin: String, path: String) -> (r: Self)
        ensures
            r.bin@ == bin@,
            r.path@ == path@,
    {
        Self { bin, path }
    }
}

/// The values of `settings`, if any, as texts `(bin, path)`.
pub open spec fn settings_view(settings: Option<EnvironmentSettings>) -> Option<(Seq<char>, Seq<char>)> {
    match settings {
        Some(s) => Some((s.bin@, s.path@)),
        None => None,
    }
}

/// What the caller reads from the environment for [`gen_env_settings_by`].
/// Splitting `PATH` and `_NPX_BIN` into entries by the platform's rules is
/// `std::env::split_paths`, which this crate leaves to the caller.
pub struct Environment {
    /// The value of `_NPX_BIN`, empty when it is unset.
    pub bin: String,
    /// `std::env::split_paths` of `bin`.
    pub bin_entries: Vec<String>,
    /// `std::env::split_paths` of the value of `PATH`.
    pub path_entries: Vec<String>,
    /// The current directory.
    pub cwd: String,
    /// Whether the current directory holds a `node_modules` directory.
    pub has_node_modules: bool,
}

/// The recorded bin directories: fish hands back a list variable that it set
/// with its own separator, so for fish they are `bin` split at that
/// separator; for the other shells they are the platform's entries
/// `bin_entries`.
pub open spec fn recorded_dirs<S: Shell>(shell: S, bin: Seq<char>, bin_entries: Seq<Seq<char>>) -> Seq<
    Seq<char>,
> {
    if shell.spec_name() == "fish"@ {
        split(bin, shell.spec_separator())
    } else {
        bin_entries
    }
}

/// The value of `PATH` that goes with the settings `(bin, path)`: `bin` in
/// front of `path`, unless it is empty.
pub open spec fn combined_path(sep: char, bin: Seq<char>, path: Seq<char>) -> Seq<char> {
    if bin.len() == 0 {
        path
    } else {
        bin + seq![sep] + path
    }
}

/// What [`gen_env_settings_by`] gives for the value `bin` of `_NPX_BIN`, its
/// entries `bin_entries` and the entries `path_entries` of `PATH` as the
/// platform splits them, and the current directory `cwd`, where
/// `has_node_modules` tells whether `cwd` holds a `node_modules` directory.
///
/// New values join their entries with the shell's separator. When the
/// directory's bin directory is first among the [`recorded_dirs`], nothing
/// is to be done. Otherwise the recorded directories are taken out of
/// `PATH`; then, without `node_modules`, the record is kept as it is when the
/// directory lies inside the project of the first recorded one (its
/// grandparent is a prefix of the directory's bin directory) and emptied
/// otherwise; with `node_modules`, the record is cut where [`keep_from`]
/// says, and the directory's bin directory goes in front unless the kept part
/// already starts with it.
pub open spec fn env_settings_spec<S: Shell>(
    shell: S,
    bin: Seq<char>,
    bin_entries: Seq<Seq<char>>,
    path_entries: Seq<Seq<char>>,
    cwd: Seq<char>,
    has_node_modules: bool,
) -> Result<(Option<(Seq<char>, Seq<char>)>, GenerateStatus), GenCommandError> {
    let new_dir = bin_dir_of(cwd);
    let sep = seq![shell.spec_separator()];
    if bin.len() == 0 {
        if has_node_modules {
            Ok((Some((new_dir, join(path_entries, sep))), GenerateStatus::EmptyVarHasModules))
        } else {
            Ok((None, GenerateStatus::EmptyVarNoModules))
        }
    } else {
        let dirs = recorded_dirs(shell, bin, bin_entries);
        if dirs[0] == new_dir {
            Ok((None, GenerateStatus::AlreadyAdded))
        } else {
            let stripped = join(without(path_entries, dirs), sep);
            if !has_node_modules {
                match grandparent(dirs[0]) {
                    None => Err(GenCommandError::ParsePathError),
                    Some(g) => if g.is_prefix_of(new_dir) {
                        Ok((None, GenerateStatus::KeepVar))
                    } else {
                        Ok((Some((Seq::<char>::empty(), stripped)), GenerateStatus::ResetPath))
                    },
                }
            } else {
                match keep_from(dirs, new_dir, 0) {
                    None => Err(GenCommandError::ParsePathError),
                    Some((k, only)) => {
                        let kept = join(dirs.skip(k as int), sep);
                        if kept.len() == 0 {
                            Ok((Some((new_dir, stripped)), GenerateStatus::UseNewDirOnly))
                        } else if only {
                            Ok((Some((kept, stripped)), GenerateStatus::UseOldDirsOnly))
                        } else {
                            Ok((Some((new_dir + sep + kept, stripped)), GenerateStatus::ConcatDirs))
                        }
                    },
                }
            }
        }
    }
}

/// The new values of `_NPX_BIN` and `PATH` for the shell `shell`, given what
/// `envs` holds; `None` when nothing is to be set. See
/// [`env_settings_spec`]. A recorded list with no entry, where `_NPX_BIN` is
/// set, is left out: the first entry is read.
pub fn gen_env_settings_by<S: Shell>(shell: &S, envs: Environment) -> (res: Result<
    (Option<EnvironmentSettings>, GenerateStatus),
    GenCommandError,
>)
    requires
        envs.bin@.len() > 0 ==> recorded_dirs(*shell, envs.bin@, envs.bin_entries.deep_view()).len()
            > 0,
    ensures
        match res {
            Ok((settings, status)) => env_settings_spec(
                *shell,
                envs.bin@,
                envs.bin_entries.deep_view(),
                envs.path_entries.deep_view(),
                envs.cwd@,
                envs.has_node_modules,
            ) == Ok::<_, GenCommandError>((settings_view(settings), status)),
            Err(e) => env_settings_spec(
                *shell,
                envs.bin@,
                envs.bin_entries.deep_view(),
                envs.path_entries.deep_view(),
                envs.cwd@,
                envs.has_node_modules,
            ) == Err::<(Option<(Seq<char>, Seq<char>)>, GenerateStatus), _>(e),
        },
{
    let ghost bin_view = envs.bin@;
    let ghost entries_view = envs.bin_entries.deep_view();
    let has_node_modules = envs.has_node_modules;
    let bin = envs.bin;
    let bin_entries = envs.bin_entries;
    let path_entries = envs.path_entries;
    let cwd = envs.cwd;
    let sep = shell.env_separator();
    let sep_str = shell.env_separator_str();
    let new_dir = bin_dir(cwd.as_str());
    if bin.as_str().is_empty() {
        if has_node_modules {
            let joined = join_strs(&path_entries, sep_str);
            return Ok((Some(EnvironmentSettings::new(new_dir, joined)), GenerateStatus::EmptyVarHasModules));
        } else {
            return Ok((None, GenerateStatus::EmptyVarNoModules));
        }
    }
    let dirs = if str_eq(shell.name(), "fish") {
        split_str(bin.as_str(), sep)
    } else {
        bin_entries
    };
    assert(dirs.deep_view() == recorded_dirs(*shell, bin_view, entries_view));
    if dirs[0] == new_dir {
        return Ok((None, GenerateStatus::AlreadyAdded));
    }
    let kept_path = without_strs(&path_entries, &dirs);
    let stripped = join_strs(&kept_path, sep_str);
    if !has_node_modules {
        assert(dirs.deep_view()[0] == dirs@[0]@);
        let g = strip_bin_path(dirs[0].as_str())?;
        if starts_with(new_dir.as_str(), g) {
            return Ok((None, GenerateStatus::KeepVar));
        }
        return Ok((Some(EnvironmentSettings::new(String::new(), stripped)), GenerateStatus::ResetPath));
    }
    let (k, only) = find_kept(&dirs, &new_dir)?;
    proof {
        lemma_keep_from_bounds(dirs.deep_view(), grandparents(dirs.deep_view()), new_dir@, 0);
    }
    let rest = slice_from(&dirs, k);
    let kept = join_strs(&rest, sep_str);
    if kept.as_str().is_empty() {
        Ok((Some(EnvironmentSettings::new(new_dir, stripped)), GenerateStatus::UseNewDirOnly))
    } else if only {
        Ok((Some(EnvironmentSettings::new(kept, stripped)), GenerateStatus::UseOldDirsOnly))
    } else {
        let mut new_bin = new_dir.clone();
        new_bin.append(sep_str);
        new_bin.append(kept.as_str());
        Ok((Some(EnvironmentSettings::new(new_bin, stripped)), GenerateStatus::ConcatDirs))
    }
}

/// After an update in a directory that holds `node_modules`, the new value of
/// `_NPX_BIN`, split at the shell's separator, starts with that directory's
/// bin directory and goes on with a tail of the recorded list: the projects
/// the shell is in form a stack. This holds when neither the directory's bin
/// directory nor a recorded entry holds the separator.
pub proof fn law_bin_list_after_update<S: Shell>(
    shell: S,
    bin: Seq<char>,
    bin_entries: Seq<Seq<char>>,
    path_entries: Seq<Seq<char>>,
    cwd: Seq<char>,
)
    requires
        !bin_dir_of(cwd).contains(shell.spec_separator()),
        forall|i: int|
            0 <= i < recorded_dirs(shell, bin, bin_entries).len() ==> !(#[trigger] recorded_dirs(
                shell,
                bin,
                bin_entries,
            )[i]).contains(shell.spec_separator()),
    ensures
        match env_settings_spec(shell, bin, bin_entries, path_entries, cwd, true) {
            Ok((Some(st), _)) => {
                &&& split(st.0, shell.spec_separator())[0] == bin_dir_of(cwd)
                &&& split(st.0, shell.spec_separator()).drop_first().is_suffix_of(
                    recorded_dirs(shell, bin, bin_entries),
                )
            },
            _ => true,
        },
{
    let c = shell.spec_separator();
    let sep = seq![c];
    let new_dir = bin_dir_of(cwd);
    let old = recorded_dirs(shell, bin, bin_entries);
    lemma_split_single(new_dir, c);
    assert(seq![new_dir].drop_first() =~= Seq::<Seq<char>>::empty());
    if bin.len() != 0 && old[0] != new_dir {
        match keep_from(old, new_dir, 0) {
            Some((k, only)) => {
                lemma_keep_from_bounds(old, grandparents(old), new_dir, 0);
                let tail = old.skip(k as int);
                let kept = join(tail, sep);
                if kept.len() != 0 {
                    assert(tail.len() >= 1);
                    assert forall|i: int| 0 <= i < tail.len() implies !(#[trigger] tail[i]).contains(
                        c,
                    ) by {
                        assert(tail[i] == old[i + k]);
                    }
                    lemma_split_join(tail, c);
                    assert(old.subrange(old.len() - tail.len(), old.len() as int) =~= tail);
                    if only {
                        assert(tail.drop_first() =~= old.skip((k + 1) as int));
                        assert(old.subrange(
                            old.len() - tail.drop_first().len(),
                            old.len() as int,
                        ) =~= tail.drop_first());
                    } else {
                        lemma_split_concat(new_dir, kept, c);
                        assert((seq![new_dir] + tail).drop_first() =~= tail);
                    }
                }
            },
            None => {},
        }
    }
}

/// Running again in the same directory after an update there finds nothing
/// to do, whatever `PATH` is then and whether `node_modules` is still there,
/// when the recorded list is then read back as the written value split at
/// the shell's separator: the update is idempotent. This holds under the
/// conditions of [`law_bin_list_after_update`], for a directory whose bin
/// directory is not empty (as [`bin_dir`](crate::paths::bin_dir) ensures of
/// every bin directory it makes).
pub proof fn law_update_idempotent<S: Shell>(
    shell: S,
    bin: Seq<char>,
    bin_entries: Seq<Seq<char>>,
    path_entries: Seq<Seq<char>>,
    cwd: Seq<char>,
    later_bin_entries: Seq<Seq<char>>,
    later_path_entries: Seq<Seq<char>>,
    later_has_node_modules: bool,
)
    requires
        bin_dir_of(cwd).len() > 0,
        !bin_dir_of(cwd).contains(shell.spec_separator()),
        forall|i: int|
            0 <= i < recorded_dirs(shell, bin, bin_entries).len() ==> !(#[trigger] recorded_dirs(
                shell,
                bin,
                bin_entries,
            )[i]).contains(shell.spec_separator()),
    ensures
        match env_settings_spec(shell, bin, bin_entries, path_entries, cwd, true) {
            Ok((Some(st), _)) => recorded_dirs(shell, st.0, later_bin_entries) == split(
                st.0,
                shell.spec_separator(),
            ) ==> env_settings_spec(
                shell,
                st.0,
                later_bin_entries,
                later_path_entries,
                cwd,
                later_has_node_modules,
            ) == Ok::<_, GenCommandError>(
                (None::<(Seq<char>, Seq<char>)>, GenerateStatus::AlreadyAdded),
            ),
            _ => true,
        },
{
    law_bin_list_after_update(shell, bin, bin_entries, path_entries, cwd);
    match env_settings_spec(shell, bin, bin_entries, path_entries, cwd, true) {
        Ok((Some(st), _)) => {
            if st.0.len() == 0 {
                assert(split(st.0, shell.spec_separator())[0] =~= Seq::<char>::empty());
            }
        },
        _ => {},
    }
}

/// Entering a project from a shell with no bin directory recorded puts the
/// project's bin directory in front of `PATH` (see [`combined_path`]);
/// leaving it again for a directory without `node_modules` outside the
/// project gives back the `PATH` that entering extended, and inside the
/// project keeps it. Leaving reads the recorded list as that bin directory
/// alone and `PATH` as it followed by the entries it had, which is what
/// splitting at `:` gives when no entry holds a `:` (the last clause). This
/// holds when the project's bin directory was not on `PATH` before and is
/// not that of the directory left for.
pub proof fn law_leaving_restores_path<S: Shell>(
    shell: S,
    path_entries: Seq<Seq<char>>,
    project: Seq<char>,
    other: Seq<char>,
    entering_bin_entries: Seq<Seq<char>>,
    leaving_bin_entries: Seq<Seq<char>>,
)
    requires
        bin_dir_of(project).len() > 0,
        recorded_dirs(shell, bin_dir_of(project), leaving_bin_entries) == seq![bin_dir_of(project)],
        !path_entries.contains(bin_dir_of(project)),
        bin_dir_of(other) != bin_dir_of(project),
    ensures
        env_settings_spec(
            shell,
            Seq::<char>::empty(),
            entering_bin_entries,
            path_entries,
            project,
            true,
        ) == Ok::<_, GenCommandError>(
            (
                Some((bin_dir_of(project), join(path_entries, seq![shell.spec_separator()]))),
                GenerateStatus::EmptyVarHasModules,
            ),
        ),
        env_settings_spec(
            shell,
            bin_dir_of(project),
            leaving_bin_entries,
            seq![bin_dir_of(project)] + path_entries,
            other,
            false,
        ) == match grandparent(bin_dir_of(project)) {
            None => Err(GenCommandError::ParsePathError),
            Some(g) => if g.is_prefix_of(bin_dir_of(other)) {
                Ok((None, GenerateStatus::KeepVar))
            } else {
                Ok(
                    (
                        Some((Seq::<char>::empty(), join(path_entries, seq![shell.spec_separator()]))),
                        GenerateStatus::ResetPath,
                    ),
                )
            },
        },
        (path_entries.len() > 0 && !bin_dir_of(project).contains(':') && (forall|i: int|
            0 <= i < path_entries.len() ==> !(#[trigger] path_entries[i]).contains(':')))
            ==> split(
            combined_path(':', bin_dir_of(project), join(path_entries, seq![':'])),
            ':',
        ) == seq![bin_dir_of(project)] + path_entries,
{
    let b = bin_dir_of(project);
    lemma_without_concat(seq![b], path_entries, seq![b]);
    assert(without(seq![b], seq![b]) =~= Seq::<Seq<char>>::empty()) by {
        assert(seq![b].drop_last() =~= Seq::<Seq<char>>::empty());
        assert(seq![b].last() == b);
        assert(seq![b].contains(b)) by {
            assert(seq![b][0] == b);
        }
        assert(without(Seq::<Seq<char>>::empty(), seq![b]) == Seq::<Seq<char>>::empty());
    }
    assert forall|i: int| 0 <= i < path_entries.len() implies !seq![b].contains(
        #[trigger] path_entries[i],
    ) by {
        if seq![b].contains(path_entries[i]) {
            assert(seq![b][0] == path_entries[i]);
        }
    }
    lemma_without_none(path_entries, seq![b]);
    assert(Seq::<Seq<char>>::empty() + path_entries =~= path_entries);
    assert(seq![b][0] == b);
    if path_entries.len() > 0 && !b.contains(':') && (forall|i: int|
        0 <= i < path_entries.len() ==> !(#[trigger] path_entries[i]).contains(':')) {
        lemma_split_join(path_entries, ':');
        lemma_split_single(b, ':');
        lemma_split_concat(b, join(path_entries, seq![':']), ':');
    }
}

/// After an update, the entries of the new `PATH` part, split at the shell's
/// separator, are none of the bin directories recorded before (when that
/// part is not empty): the old bin directories leave `PATH`. This holds when
/// no entry of `PATH` holds the separator.
pub proof fn law_old_bin_dirs_leave_path<S: Shell>(
    shell: S,
    bin: Seq<char>,
    bin_entries: Seq<Seq<char>>,
    path_entries: Seq<Seq<char>>,
    cwd: Seq<char>,
    has_node_modules: bool,
)
    requires
        forall|i: int|
            0 <= i < path_entries.len() ==> !(#[trigger] path_entries[i]).contains(
                shell.spec_separator(),
            ),
    ensures
        match env_settings_spec(shell, bin, bin_entries, path_entries, cwd, has_node_modules) {
            Ok((Some(st), _)) => bin.len() > 0 && st.1.len() > 0 ==> forall|i: int|
                0 <= i < split(st.1, shell.spec_separator()).len() ==> !recorded_dirs(
                    shell,
                    bin,
                    bin_entries,
                ).contains(#[trigger] split(st.1, shell.spec_separator())[i]),
            _ => true,
        },
{
    let c = shell.spec_separator();
    let dirs = recorded_dirs(shell, bin, bin_entries);
    let w = without(path_entries, dirs);
    lemma_without_entries(path_entries, dirs);
    if w.len() > 0 {
        assert forall|i: int| 0 <= i < w.len() implies !(#[trigger] w[i]).contains(c) by {
            let j = choose|j: int| 0 <= j < path_entries.len() && path_entries[j] == w[i];
            assert(!path_entries[j].contains(c));
        }
        lemma_split_join(w, c);
    }
}

/// On Unix, where `std::env::split_paths` splits at `:`, the single command
/// of [`gen_command_by`](crate::gen_command_by) in a directory with
/// `node_modules` sets exactly what [`gen_env_settings_by`] gives for Bash:
/// it is [`command_text`] of those settings, empty when there is nothing to
/// set, and the same error.
pub proof fn law_command_matches_settings(bin: Seq<char>, path: Seq<char>, cwd: Seq<char>)
    ensures
        gen_command_spec(bin, path, cwd, true, Platform::Unix) == match env_settings_spec(
            Bash,
            bin,
            split(bin, ':'),
            split(path, ':'),
            cwd,
            true,
        ) {
            Ok((Some(st), _)) => Ok(command_text(st.0, st.1, Platform::Unix)),
            Ok((None, _)) => Ok(Seq::<char>::empty()),
            Err(e) => Err(e),
        },
{
    reveal_strlit("bash");
    reveal_strlit("fish");
    assert("bash"@[0] != "fish"@[0]);
    assert(list_separator(Platform::Unix) == ':');
    lemma_join_split(path, ':');
}

/// Leaving for a directory without `node_modules`, with a recorded list
/// whose first entry `d0` is not the directory's bin directory: the decision
/// rests on `d0` alone. Inside the project of `d0` (its grandparent is a
/// prefix of the directory's bin directory) nothing changes; outside it the
/// record is emptied and every recorded entry leaves `PATH`; without a
/// grandparent of `d0` the path cannot be parsed.
pub proof fn law_leaving_decided_by_first_entry<S: Shell>(
    shell: S,
    bin: Seq<char>,
    bin_entries: Seq<Seq<char>>,
    path_entries: Seq<Seq<char>>,
    cwd: Seq<char>,
)
    requires
        bin.len() > 0,
        recorded_dirs(shell, bin, bin_entries).len() > 0,
        recorded_dirs(shell, bin, bin_entries)[0] != bin_dir_of(cwd),
    ensures
        ({
            let dirs = recorded_dirs(shell, bin, bin_entries);
            env_settings_spec(shell, bin, bin_entries, path_entries, cwd, false) == match grandparent(
                dirs[0],
            ) {
                None => Err(GenCommandError::ParsePathError),
                Some(g) => if g.is_prefix_of(bin_dir_of(cwd)) {
                    Ok((None, GenerateStatus::KeepVar))
                } else {
                    Ok(
                        (
                            Some(
                                (
                                    Seq::<char>::empty(),
                                    join(without(path_entries, dirs), seq![shell.spec_separator()]),
                                ),
                            ),
                            GenerateStatus::ResetPath,
                        ),
                    )
                },
            }
        }),
{
}

/// Entering a project: the recorded list `dirs` is cut at the first entry
/// `k` that is the new bin directory or whose own grandparent is a prefix of
/// it. Behind the new bin directory `_NPX_BIN` keeps `dirs[k..]` (or is
/// `dirs[k..]` alone when `dirs[k]` is the new directory), and `PATH` loses
/// every recorded entry. This holds for every such `k`, with non-empty entry
/// `k`.
pub proof fn law_entering_keeps_enclosing_projects<S: Shell>(
    shell: S,
    bin: Seq<char>,
    bin_entries: Seq<Seq<char>>,
    path_entries: Seq<Seq<char>>,
    cwd: Seq<char>,
    k: nat,
)
    requires
        bin.len() > 0,
        k < recorded_dirs(shell, bin, bin_entries).len(),
        recorded_dirs(shell, bin, bin_entries)[0] != bin_dir_of(cwd),
        forall|j: int|
            0 <= j < k ==> {
                let d = #[trigger] recorded_dirs(shell, bin, bin_entries)[j];
                &&& d != bin_dir_of(cwd)
                &&& grandparent(d) is Some
                &&& !grandparent(d)->0.is_prefix_of(bin_dir_of(cwd))
            },
        grandparent(recorded_dirs(shell, bin, bin_entries)[k as int]) is Some,
        recorded_dirs(shell, bin, bin_entries)[k as int] == bin_dir_of(cwd) || grandparent(
            recorded_dirs(shell, bin, bin_entries)[k as int],
        )->0.is_prefix_of(bin_dir_of(cwd)),
        recorded_dirs(shell, bin, bin_entries)[k as int].len() > 0,
    ensures
        ({
            let sep = seq![shell.spec_separator()];
            let dirs = recorded_dirs(shell, bin, bin_entries);
            let new_dir = bin_dir_of(cwd);
            let kept = join(dirs.skip(k as int), sep);
            let stripped = join(without(path_entries, dirs), sep);
            env_settings_spec(shell, bin, bin_entries, path_entries, cwd, true) == if dirs[k as int]
                == new_dir {
                Ok::<_, GenCommandError>((Some((kept, stripped)), GenerateStatus::UseOldDirsOnly))
            } else {
                Ok::<_, GenCommandError>(
                    (Some((new_dir + sep + kept, stripped)), GenerateStatus::ConcatDirs),
                )
            }
        }),
{
    let sep = seq![shell.spec_separator()];
    let dirs = recorded_dirs(shell, bin, bin_entries);
    let new_dir = bin_dir_of(cwd);
    let gps = grandparents(dirs);
    assert forall|j: int|
        0 <= j < k implies (#[trigger] gps[j]) is Some && dirs[j] != new_dir && !gps[j]->0.is_prefix_of(
        new_dir,
    ) by {
        assert(gps[j] == grandparent(dirs[j]));
    }
    assert(gps[k as int] == grandparent(dirs[k as int]));
    lemma_scan_kept_at(dirs, gps, new_dir, 0, k);
    lemma_join_first(dirs.skip(k as int), sep);
    assert(dirs.skip(k as int)[0] == dirs[k as int]);
}

/// Entering a project that lies in none of the recorded projects: `_NPX_BIN`
/// becomes the new bin directory alone, and every recorded entry leaves
/// `PATH`.
pub proof fn law_entering_drops_unrelated_projects<S: Shell>(
    shell: S,
    bin: Seq<char>,
    bin_entries: Seq<Seq<char>>,
    path_entries: Seq<Seq<char>>,
    cwd: Seq<char>,
)
    requires
        bin.len() > 0,
        recorded_dirs(shell, bin, bin_entries).len() > 0,
        forall|j: int|
            0 <= j < recorded_dirs(shell, bin, bin_entries).len() ==> {
                let d = #[trigger] recorded_dirs(shell, bin, bin_entries)[j];
                &&& d != bin_dir_of(cwd)
                &&& grandparent(d) is Some
                &&& !grandparent(d)->0.is_prefix_of(bin_dir_of(cwd))
            },
    ensures
        env_settings_spec(shell, bin, bin_entries, path_entries, cwd, true) == Ok::<
            _,
            GenCommandError,
        >(
            (
                Some(
                    (
                        bin_dir_of(cwd),
                        join(
                            without(path_entries, recorded_dirs(shell, bin, bin_entries)),
                            seq![shell.spec_separator()],
                        ),
                    ),
                ),
                GenerateStatus::UseNewDirOnly,
            ),
        ),
{
    let dirs = recorded_dirs(shell, bin, bin_entries);
    let gps = grandparents(dirs);
    assert(dirs[0] != bin_dir_of(cwd));
    assert forall|j: int| 0 <= j < dirs.len() implies (#[trigger] gps[j]) is Some && dirs[j]
        != bin_dir_of(cwd) && !gps[j]->0.is_prefix_of(bin_dir_of(cwd)) by {
        assert(gps[j] == grandparent(dirs[j]));
    }
    lemma_scan_kept_none(dirs, gps, bin_dir_of(cwd), 0);
    assert(dirs.skip(dirs.len() as int) =~= Seq::<Seq<char>>::empty());
}

} // verus!
