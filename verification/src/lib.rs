//! Generates the shell commands that put a project's `node_modules/.bin`
//! directory on `PATH`, and take it off again when the shell leaves the
//! project. This crate holds the decisions; reading the environment, looking
//! at the file system and printing are left to its caller.
//!
//! The caller names the platform it runs on ([`Platform`]), since that
//! decides how `PATH` is separated; paths themselves are taken apart and put
//! together by `std::path`, by the rules of the platform the crate is built
//! for.
use vstd::prelude::*;

pub mod commands;
pub mod generate;
pub mod paths;
pub mod shells;
pub mod text;
pub mod utils;

use crate::paths::{bin_dir, bin_dir_of, grandparent, parent_of};

use crate::text::{join, join_strs, split, split_str, starts_with, without, without_strs};

verus! {

/// The platform the shell runs on, as far as the crate's output depends on it.
#[derive(Debug, Clone, Copy, PartialEq, Eq, Structural)]
pub enum Platform {
    /// Linux, macOS and the other Unix systems.
    Unix,
    /// Windows.
    Windows,
}

/// The separator of the entries of `PATH` and `_NPX_BIN` on `platform`: `;`
/// on Windows, `:` elsewhere.
pub open spec fn list_separator(platform: Platform) -> char {
    match platform {
        Platform::Unix => ':',
        Platform::Windows => ';',
    }
}

/// The separator of the entries of `PATH` and `_NPX_BIN` on `platform`.
pub fn env_separator(platform: Platform) -> (c: char)
    ensures
        c == list_separator(platform),
{
    match platform {
        Platform::Unix => ':',
        Platform::Windows => ';',
    }
}

/// [`env_separator`] as a string.
pub fn env_separator_str(platform: Platform) -> (s: &'static str)
    ensures
        s@ == seq![list_separator(platform)],
{
    match platform {
        Platform::Unix => {
            proof {
                reveal_strlit(":");
            }
            ":"
        },
        Platform::Windows => {
            proof {
                reveal_strlit(";");
            }
            ";"
        },
    }
}

/// Name of the environment variable that records the `node_modules/.bin`
/// directories put on `PATH`, the current project's first.
pub const ENV_NAME: &'static str = "_NPX_BIN";

/// Message for a path or variable that is not valid UTF-8.
pub const NOT_UNICODE_ERR: &'static str = "Cannot convert path to valid UTF-8 string";

/// Why an environment variable could not be read.
#[derive(Debug, Clone, PartialEq, Eq, Structural)]
pub enum VarErrorKind {
    /// The variable is not set.
    NotPresent,
    /// The variable holds text that is not valid UTF-8.
    NotUnicode,
}

/// Errors of [`gen_command_by`] and [`strip_bin_path`], and of reading what
/// they are given.
#[derive(Debug, PartialEq, Eq)]
pub enum GenCommandError {
    /// An environment variable could not be read.
    VariableError(VarErrorKind),
    /// A path is not valid UTF-8.
    InvalidPath,
    /// A path has no grandparent directory.
    ParsePathError,
    /// Reading the current directory failed, with the system's message.
    IOError(String),
}

/// The text of [`format_command`] on `platform`.
pub open spec fn command_text(bin: Seq<char>, path: Seq<char>, platform: Platform) -> Seq<char> {
    "export "@ + ENV_NAME@ + "="@ + bin + ";export PATH=$"@ + ENV_NAME@ + seq![
        list_separator(platform),
    ] + path
}

/// The command that sets `_NPX_BIN` to `bin` and `PATH` to `$_NPX_BIN`, the
/// platform's separator and `path`.
pub fn format_command(bin: &str, path: &str, platform: Platform) -> (r: String)
    ensures
        r@ == command_text(bin@, path@, platform),
{
    let mut r = String::new();
    r.append("export ");
    r.append(ENV_NAME);
    r.append("=");
    r.append(bin);
    r.append(";export PATH=$");
    r.append(ENV_NAME);
    r.append(env_separator_str(platform));
    r.append(path);
    r
}

/// The directory two levels above the bin directory `v`: for
/// `<project>/node_modules/.bin` that is `<project>`. It is the grandparent
/// that `Path::ancestors` yields, a shorter prefix of `v`; a path without one
/// is a [`GenCommandError::ParsePathError`].
pub fn strip_bin_path(v: &str) -> (r: Result<&str, GenCommandError>)
    ensures
        match r {
            Ok(g) => grandparent(v@) == Some(g@) && g@.is_prefix_of(v@) && g@.len() < v@.len(),
            Err(e) => grandparent(v@) is None && e == GenCommandError::ParsePathError,
        },
{
    match parent_of(v) {
        Some(p) => match parent_of(p) {
            Some(g) => {
                assert(g@.is_prefix_of(v@)) by {
                    assert forall|i: int| 0 <= i < g@.len() implies g@[i] == v@[i] by {
                        assert(g@[i] == p@.subrange(0, g@.len() as int)[i]);
                        assert(p@[i] == v@.subrange(0, p@.len() as int)[i]);
                    }
                    assert(g@ =~= v@.subrange(0, g@.len() as int));
                }
                Ok(g)
            },
            None => Err(GenCommandError::ParsePathError),
        },
        None => Err(GenCommandError::ParsePathError),
    }
}

/// Where the old list of bin directories `dirs` is cut when the shell enters
/// the project whose bin directory is `new_dir`, looking from index `i` on,
/// given the grandparent `gps[j]` of each `dirs[j]` (`None` where there is
/// none). `Some((k, true))`: `dirs[k]` is `new_dir` itself, and the list is
/// kept from there. `Some((k, false))`: `new_dir` lies inside the project of
/// `dirs[k]` (its grandparent is a prefix of `new_dir`), and `new_dir` goes in
/// front of `dirs` from `k` on; `k` is the length of `dirs` when no entry
/// matches. `None`: an entry reached before any match has no grandparent.
pub open spec fn scan_kept(
    dirs: Seq<Seq<char>>,
    gps: Seq<Option<Seq<char>>>,
    new_dir: Seq<char>,
    i: nat,
) -> Option<(nat, bool)>
    decreases dirs.len() - i,
{
    if i >= dirs.len() {
        Some((dirs.len(), false))
    } else {
        match (if i < gps.len() { gps[i as int] } else { None }) {
            None => None,
            Some(g) => if dirs[i as int] == new_dir {
                Some((i, true))
            } else if g.is_prefix_of(new_dir) {
                Some((i, false))
            } else {
                scan_kept(dirs, gps, new_dir, i + 1)
            },
        }
    }
}

/// The grandparents of the paths `dirs`.
pub open spec fn grandparents(dirs: Seq<Seq<char>>) -> Seq<Option<Seq<char>>> {
    dirs.map_values(|d: Seq<char>| grandparent(d))
}

/// [`scan_kept`] with the grandparents that `std::path` finds.
pub open spec fn keep_from(dirs: Seq<Seq<char>>, new_dir: Seq<char>, i: nat) -> Option<(nat, bool)> {
    scan_kept(dirs, grandparents(dirs), new_dir, i)
}

/// A match found by [`scan_kept`] lies within the list, and a kept entry is
/// the new directory itself.
pub proof fn lemma_keep_from_bounds(
    dirs: Seq<Seq<char>>,
    gps: Seq<Option<Seq<char>>>,
    new_dir: Seq<char>,
    i: nat,
)
    requires
        i <= dirs.len(),
    ensures
        scan_kept(dirs, gps, new_dir, i) matches Some((k, only)) ==> i <= k <= dirs.len() && (
        only ==> k < dirs.len() && dirs[k as int] == new_dir),
    decreases dirs.len() - i,
{
    if i < dirs.len() {
        lemma_keep_from_bounds(dirs, gps, new_dir, i + 1);
    }
}

/// The scan stops at the first entry from `i` on that is the new directory
/// or lies in a project holding it: when every entry before `k` has a
/// grandparent, is not the new directory and lies in no such project, and
/// entry `k` has a grandparent and matches, the list is cut at `k`, kept
/// whole from there when entry `k` is the new directory itself.
pub proof fn lemma_scan_kept_at(
    dirs: Seq<Seq<char>>,
    gps: Seq<Option<Seq<char>>>,
    new_dir: Seq<char>,
    i: nat,
    k: nat,
)
    requires
        i <= k < dirs.len(),
        k < gps.len(),
        forall|j: int|
            i <= j < k ==> (#[trigger] gps[j]) is Some && dirs[j] != new_dir && !gps[j]->0.is_prefix_of(
                new_dir,
            ),
        gps[k as int] is Some,
        dirs[k as int] == new_dir || gps[k as int]->0.is_prefix_of(new_dir),
    ensures
        scan_kept(dirs, gps, new_dir, i) == Some((k, dirs[k as int] == new_dir)),
    decreases k - i,
{
    if i < k {
        assert(gps[i as int] is Some);
        lemma_scan_kept_at(dirs, gps, new_dir, i + 1, k);
    }
}

/// When no entry from `i` on is the new directory or lies in a project
/// holding it (and each has a grandparent), nothing of the list is kept.
pub proof fn lemma_scan_kept_none(
    dirs: Seq<Seq<char>>,
    gps: Seq<Option<Seq<char>>>,
    new_dir: Seq<char>,
    i: nat,
)
    requires
        i <= dirs.len() <= gps.len(),
        forall|j: int|
            i <= j < dirs.len() ==> (#[trigger] gps[j]) is Some && dirs[j] != new_dir
                && !gps[j]->0.is_prefix_of(new_dir),
    ensures
        scan_kept(dirs, gps, new_dir, i) == Some((dirs.len(), false)),
    decreases dirs.len() - i,
{
    if i < dirs.len() {
        assert(gps[i as int] is Some);
        lemma_scan_kept_none(dirs, gps, new_dir, i + 1);
    }
}

/// Entering a project that lies in none of the recorded projects: `_NPX_BIN`
/// becomes the new bin directory alone, and every recorded entry leaves
/// `PATH`.
pub proof fn law_command_drops_unrelated_projects(
    npx_bin: Seq<char>,
    env_path: Seq<char>,
    cwd: Seq<char>,
    platform: Platform,
)
    requires
        npx_bin.len() > 0,
        forall|j: int|
            0 <= j < split(npx_bin, list_separator(platform)).len() ==> {
                let d = #[trigger] split(npx_bin, list_separator(platform))[j];
                &&& d != bin_dir_of(cwd)
                &&& grandparent(d) is Some
                &&& !grandparent(d)->0.is_prefix_of(bin_dir_of(cwd))
            },
    ensures
        ({
            let c = list_separator(platform);
            let dirs = split(npx_bin, c);
            gen_command_spec(npx_bin, env_path, cwd, true, platform) == Ok::<_, GenCommandError>(
                command_text(bin_dir_of(cwd), join(without(split(env_path, c), dirs), seq![c]), platform),
            )
        }),
{
    let c = list_separator(platform);
    let dirs = split(npx_bin, c);
    let gps = grandparents(dirs);
    text::lemma_split_nonempty(npx_bin, c);
    assert(dirs[0] != bin_dir_of(cwd));
    assert forall|j: int| 0 <= j < dirs.len() implies (#[trigger] gps[j]) is Some && dirs[j]
        != bin_dir_of(cwd) && !gps[j]->0.is_prefix_of(bin_dir_of(cwd)) by {
        assert(gps[j] == grandparent(dirs[j]));
    }
    lemma_scan_kept_none(dirs, gps, bin_dir_of(cwd), 0);
    assert(dirs.skip(dirs.len() as int) =~= Seq::<Seq<char>>::empty());
}

/// Without `node_modules` in the current directory the single command is
/// empty, whatever is recorded and on whichever platform.
pub proof fn law_command_empty_without_node_modules(
    npx_bin: Seq<char>,
    env_path: Seq<char>,
    cwd: Seq<char>,
    platform: Platform,
)
    ensures
        gen_command_spec(npx_bin, env_path, cwd, false, platform) == Ok::<_, GenCommandError>(
            Seq::<char>::empty(),
        ),
{
}

/// Entering a project: the recorded list `dirs` (split at the platform's
/// separator) is cut at the first entry `k` that is the new bin directory or
/// whose own grandparent is a prefix of it. Behind the new bin directory
/// `_NPX_BIN` keeps `dirs[k..]` (or is `dirs[k..]` alone when `dirs[k]` is
/// the new directory), and `PATH` loses every recorded entry. This holds for
/// every such `k`, with non-empty entry `k`.
pub proof fn law_command_keeps_enclosing_projects(
    npx_bin: Seq<char>,
    env_path: Seq<char>,
    cwd: Seq<char>,
    platform: Platform,
    k: nat,
)
    requires
        npx_bin.len() > 0,
        k < split(npx_bin, list_separator(platform)).len(),
        split(npx_bin, list_separator(platform))[0] != bin_dir_of(cwd),
        forall|j: int|
            0 <= j < k ==> {
                let d = #[trigger] split(npx_bin, list_separator(platform))[j];
                &&& d != bin_dir_of(cwd)
                &&& grandparent(d) is Some
                &&& !grandparent(d)->0.is_prefix_of(bin_dir_of(cwd))
            },
        grandparent(split(npx_bin, list_separator(platform))[k as int]) is Some,
        split(npx_bin, list_separator(platform))[k as int] == bin_dir_of(cwd) || grandparent(
            split(npx_bin, list_separator(platform))[k as int],
        )->0.is_prefix_of(bin_dir_of(cwd)),
        split(npx_bin, list_separator(platform))[k as int].len() > 0,
    ensures
        ({
            let c = list_separator(platform);
            let dirs = split(npx_bin, c);
            let new_dir = bin_dir_of(cwd);
            let kept = join(dirs.skip(k as int), seq![c]);
            let stripped = join(without(split(env_path, c), dirs), seq![c]);
            gen_command_spec(npx_bin, env_path, cwd, true, platform) == Ok::<_, GenCommandError>(
                if dirs[k as int] == new_dir {
                    command_text(kept, stripped, platform)
                } else {
                    command_text(new_dir + seq![c] + kept, stripped, platform)
                },
            )
        }),
{
    let c = list_separator(platform);
    let dirs = split(npx_bin, c);
    let new_dir = bin_dir_of(cwd);
    let gps = grandparents(dirs);
    assert forall|j: int|
        0 <= j < k implies (#[trigger] gps[j]) is Some && dirs[j] != new_dir && !gps[j]->0.is_prefix_of(
        new_dir,
    ) by {
        assert(gps[j] == grandparent(dirs[j]));
    }
    assert(gps[k as int] == grandparent(dirs[k as int]));
    lemma_scan_kept_at(dirs, gps, new_dir, 0, k);
    text::lemma_join_first(dirs.skip(k as int), seq![c]);
    assert(dirs.skip(k as int)[0] == dirs[k as int]);
}

/// [`scan_kept`] from the start, over the bin directories `dirs` and their
/// grandparents `grandparents`.
pub fn scan_kept_dirs(
    dirs: &Vec<String>,
    grandparents: &Vec<Option<String>>,
    new_dir: &String,
) -> (r: Option<(usize, bool)>)
    ensures
        match r {
            Some((k, only)) => scan_kept(
                dirs.deep_view(),
                grandparents.deep_view(),
                new_dir@,
                0,
            ) == Some((k as nat, only)),
            None => scan_kept(dirs.deep_view(), grandparents.deep_view(), new_dir@, 0) is None,
        },
{
    let ghost dv = dirs.deep_view();
    let ghost gv = grandparents.deep_view();
    let mut k: usize = 0;
    while k < dirs.len()
        invariant
            k <= dirs.len(),
            dv == dirs.deep_view(),
            gv == grandparents.deep_view(),
            scan_kept(dv, gv, new_dir@, 0) == scan_kept(dv, gv, new_dir@, k as nat),
        decreases dirs.len() - k,
    {
        assert(dv[k as int] == dirs@[k as int]@);
        if k >= grandparents.len() {
            return None;
        }
        assert(gv[k as int] == grandparents@[k as int].deep_view());
        match &grandparents[k] {
            None => {
                return None;
            },
            Some(g) => {
                if dirs[k] == *new_dir {
                    return Some((k, true));
                }
                if starts_with(new_dir.as_str(), g.as_str()) {
                    return Some((k, false));
                }
            },
        }
        k = k + 1;
    }
    Some((k, false))
}

/// [`keep_from`] on `dirs` from the start.
pub(crate) fn find_kept(dirs: &Vec<String>, new_dir: &String) -> (r: Result<
    (usize, bool),
    GenCommandError,
>)
    ensures
        match r {
            Ok((k, only)) => keep_from(dirs.deep_view(), new_dir@, 0) == Some((k as nat, only)),
            Err(e) => keep_from(dirs.deep_view(), new_dir@, 0) is None && e
                == GenCommandError::ParsePathError,
        },
{
    let mut gps: Vec<Option<String>> = Vec::new();
    let mut i: usize = 0;
    while i < dirs.len()
        invariant
            i <= dirs.len(),
            gps.deep_view() =~= grandparents(dirs.deep_view()).take(i as int),
        decreases dirs.len() - i,
    {
        let ghost before = gps.deep_view();
        let g = match strip_bin_path(dirs[i].as_str()) {
            Ok(g) => {
                let mut s = String::new();
                s.append(g);
                Some(s)
            },
            Err(_) => None,
        };
        gps.push(g);
        assert(dirs.deep_view()[i as int] == dirs@[i as int]@);
        assert(gps.deep_view() =~= before.push(grandparent(dirs@[i as int]@)));
        i = i + 1;
    }
    assert(grandparents(dirs.deep_view()).take(dirs.len() as int) =~= grandparents(
        dirs.deep_view(),
    ));
    match scan_kept_dirs(dirs, &gps, new_dir) {
        Some(r) => Ok(r),
        None => Err(GenCommandError::ParsePathError),
    }
}

/// What [`gen_command_by`] gives on `platform` for the value `npx_bin` of
/// `_NPX_BIN`, the value `env_path` of `PATH` and the current directory
/// `cwd`, where `has_node_modules` tells whether `cwd` holds a
/// `node_modules` directory. Both lists are split at the platform's
/// separator.
///
/// Without `node_modules` nothing is to be done: the command is empty. With
/// no bin directory recorded yet, the command puts this project's in front of
/// `PATH`; so it does when the list has other directories first, after taking
/// the old bin directories out of `PATH` and keeping, behind the new one, the
/// part of the old list from the first entry whose project holds this one
/// (see [`keep_from`]). When this project's directory is already first there
/// is nothing to do.
pub open spec fn gen_command_spec(
    npx_bin: Seq<char>,
    env_path: Seq<char>,
    cwd: Seq<char>,
    has_node_modules: bool,
    platform: Platform,
) -> Result<Seq<char>, GenCommandError> {
    let new_dir = bin_dir_of(cwd);
    let c = list_separator(platform);
    let sep = seq![c];
    if !has_node_modules {
        Ok(Seq::<char>::empty())
    } else if npx_bin.len() == 0 {
        Ok(command_text(new_dir, env_path, platform))
    } else {
        let dirs = split(npx_bin, c);
        if dirs[0] == new_dir {
            Ok(Seq::<char>::empty())
        } else {
            let stripped = join(without(split(env_path, c), dirs), sep);
            match keep_from(dirs, new_dir, 0) {
                None => Err(GenCommandError::ParsePathError),
                Some((k, only)) => {
                    let kept = join(dirs.skip(k as int), sep);
                    if kept.len() == 0 {
                        Ok(command_text(new_dir, stripped, platform))
                    } else if only {
                        Ok(command_text(kept, stripped, platform))
                    } else {
                        Ok(command_text(new_dir + sep + kept, stripped, platform))
                    }
                },
            }
        }
    }
}

/// The command that brings `PATH` up to date on `platform` for the current
/// directory `cwd`, given the values `npx_bin` of `_NPX_BIN` and `env_path`
/// of `PATH` and whether `cwd` holds a `node_modules` directory; empty when
/// nothing is to be done. See [`gen_command_spec`].
pub fn gen_command_by(
    npx_bin: &str,
    env_path: &str,
    cwd: &str,
    has_node_modules: bool,
    platform: Platform,
) -> (r: Result<String, GenCommandError>)
    ensures
        match r {
            Ok(s) => gen_command_spec(npx_bin@, env_path@, cwd@, has_node_modules, platform)
                == Ok::<Seq<char>, GenCommandError>(s@),
            Err(e) => gen_command_spec(npx_bin@, env_path@, cwd@, has_node_modules, platform)
                == Err::<Seq<char>, GenCommandError>(e),
        },
{
    if !has_node_modules {
        return Ok(String::new());
    }
    let new_dir = bin_dir(cwd);
    if npx_bin.is_empty() {
        return Ok(format_command(new_dir.as_str(), env_path, platform));
    }
    let c = env_separator(platform);
    let sep = env_separator_str(platform);
    let dirs = split_str(npx_bin, c);
    proof {
        text::lemma_split_nonempty(npx_bin@, c);
    }
    if dirs[0] == new_dir {
        return Ok(String::new());
    }
    let path_dirs = split_str(env_path, c);
    let kept_path = without_strs(&path_dirs, &dirs);
    let stripped = join_strs(&kept_path, sep);
    let (k, only) = find_kept(&dirs, &new_dir)?;
    proof {
        lemma_keep_from_bounds(dirs.deep_view(), grandparents(dirs.deep_view()), new_dir@, 0);
    }
    let rest = slice_from(&dirs, k);
    let kept = join_strs(&rest, sep);
    if kept.as_str().is_empty() {
        Ok(format_command(new_dir.as_str(), stripped.as_str(), platform))
    } else if only {
        Ok(format_command(kept.as_str(), stripped.as_str(), platform))
    } else {
        let mut bin = new_dir.clone();
        bin.append(sep);
        bin.append(kept.as_str());
        Ok(format_command(bin.as_str(), stripped.as_str(), platform))
    }
}

/// A copy of the entries of `v` from index `k` on.
pub(crate) fn slice_from(v: &Vec<String>, k: usize) -> (r: Vec<String>)
    requires
        k <= v.len(),
    ensures
        r.deep_view() == v.deep_view().skip(k as int),
{
    let mut r: Vec<String> = Vec::new();
    let mut i: usize = k;
    while i < v.len()
        invariant
            k <= i <= v.len(),
            r.deep_view() == v.deep_view().subrange(k as int, i as int),
        decreases v.len() - i,
    {
        let ghost before = r.deep_view();
        r.push(v[i].clone());
        assert(r.deep_view() =~= before.push(v@[i as int]@));
        assert(v.deep_view().subrange(k as int, i + 1) =~= v.deep_view().subrange(
            k as int,
            i as int,
        ).push(v.deep_view()[i as int]));
        i = i + 1;
    }
    r
}

} // verus!
