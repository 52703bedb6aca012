use npx_bin_helper::generate::{gen_env_settings_by, Environment, EnvironmentSettings, GenerateStatus};
use npx_bin_helper::shells::{Bash, Fish, PowerShell, Shells};
use npx_bin_helper::Platform;
use npx_bin_helper::GenCommandError;

const TMP: &str = "/tmp/project";
const PATH: &str = "/usr/bin";

fn bin_of(dir: &str) -> String {
    format!("{}/node_modules/.bin", dir)
}

fn entries(s: &str, sep: char) -> Vec<String> {
    s.split(sep).map(String::from).collect()
}

/// The environment as a Unix system splits it.
fn env(bin: &str, path: &str, cwd: &str, has_node_modules: bool) -> Environment {
    Environment {
        bin: bin.to_string(),
        bin_entries: entries(bin, ':'),
        path_entries: entries(path, ':'),
        cwd: cwd.to_string(),
        has_node_modules,
    }
}

fn run(bin: &str, path: &str, cwd: &str, has_modules: bool) -> (Option<EnvironmentSettings>, GenerateStatus) {
    gen_env_settings_by(&Bash, env(bin, path, cwd, has_modules)).unwrap()
}

#[test]
fn empty_var_has_modules() {
    let (settings, status) = run("", PATH, TMP, true);
    assert_eq!(status, GenerateStatus::EmptyVarHasModules);
    let settings = settings.unwrap();
    assert_eq!(settings.bin, bin_of(TMP));
    assert_eq!(settings.path, PATH);
}

#[test]
fn empty_var_no_modules() {
    let (settings, status) = run("", PATH, TMP, false);
    assert_eq!(status, GenerateStatus::EmptyVarNoModules);
    assert!(settings.is_none());
}

#[test]
fn same_dir() {
    let (settings, status) = run(&bin_of(TMP), PATH, TMP, true);
    assert_eq!(status, GenerateStatus::AlreadyAdded);
    assert!(settings.is_none());
}

#[test]
fn reset_path() {
    let bin = bin_of(TMP);
    let path = format!("{}:{}", bin, PATH);
    let (settings, status) = run(&bin, &path, "/tmp", false);
    assert_eq!(status, GenerateStatus::ResetPath);
    let settings = settings.unwrap();
    assert_eq!(settings.bin, "");
    assert_eq!(settings.path, PATH);
}

#[test]
fn subdir_no_modules() {
    let (settings, status) = run(&bin_of(TMP), PATH, "/tmp/project/foo", false);
    assert_eq!(status, GenerateStatus::KeepVar);
    assert!(settings.is_none());
}

#[test]
fn use_old_dirs_only() {
    let bin = format!(
        "{}:{}:{}",
        bin_of("/tmp/project/foo/bar"),
        bin_of("/tmp/project/foo"),
        bin_of(TMP)
    );
    let path = format!("{}:{}", bin, PATH);
    let (settings, status) = run(&bin, &path, TMP, true);
    assert_eq!(status, GenerateStatus::UseOldDirsOnly);
    let settings = settings.unwrap();
    assert_eq!(settings.bin, bin_of(TMP));
    assert_eq!(settings.path, PATH);
}

#[test]
fn concat_dirs() {
    let bin = bin_of(TMP);
    let (settings, status) = run(&bin, PATH, "/tmp/project/foo", true);
    assert_eq!(status, GenerateStatus::ConcatDirs);
    let settings = settings.unwrap();
    assert_eq!(settings.bin, format!("{}:{}", bin_of("/tmp/project/foo"), bin));
    assert_eq!(settings.path, PATH);
}

#[test]
fn use_new_dir_only() {
    let (settings, status) = run(&bin_of("/tmp/project/foo"), PATH, TMP, true);
    assert_eq!(status, GenerateStatus::UseNewDirOnly);
    let settings = settings.unwrap();
    assert_eq!(settings.bin, bin_of(TMP));
    assert_eq!(settings.path, PATH);
}

#[test]
fn concat_keeps_only_the_enclosing_tail() {
    // Entering /a/b/c from /a/b (recorded first) and /x: /x is not kept,
    // since the scan stops at the first enclosing project.
    let bin = format!("{}:{}", bin_of("/a/b"), bin_of("/x"));
    let (settings, status) = run(&bin, PATH, "/a/b/c", true);
    assert_eq!(status, GenerateStatus::ConcatDirs);
    assert_eq!(settings.unwrap().bin, format!("{}:{}:{}", bin_of("/a/b/c"), bin_of("/a/b"), bin_of("/x")));
}

#[test]
fn prefix_match_is_textual() {
    // "/tmp/project" is a text prefix of "/tmp/project2/..."; the record is kept.
    let (settings, status) = run(&bin_of(TMP), PATH, "/tmp/project2", false);
    assert_eq!(status, GenerateStatus::KeepVar);
    assert!(settings.is_none());
}

#[test]
fn strips_all_recorded_dirs_from_path() {
    let bin = format!("{}:{}", bin_of("/a"), bin_of("/b"));
    let path = format!("{}:/usr/bin:{}:/bin", bin_of("/a"), bin_of("/b"));
    let (settings, status) = run(&bin, &path, "/c", true);
    assert_eq!(status, GenerateStatus::UseNewDirOnly);
    let settings = settings.unwrap();
    assert_eq!(settings.bin, bin_of("/c"));
    assert_eq!(settings.path, "/usr/bin:/bin");
}

#[test]
fn fish_joins_with_spaces() {
    let bin = bin_of(TMP);
    let (settings, status) = gen_env_settings_by(&Fish, env(&bin, "/usr/bin:/bin", "/tmp/project/foo", true)).unwrap();
    assert_eq!(status, GenerateStatus::ConcatDirs);
    let settings = settings.unwrap();
    assert_eq!(settings.bin, format!("{} {}", bin_of("/tmp/project/foo"), bin));
    assert_eq!(settings.path, "/usr/bin /bin");
}

#[test]
fn fish_reads_its_list_with_spaces() {
    let bin = format!("{} {}", bin_of("/a"), bin_of(TMP));
    // fish's own list is split at spaces, whatever entries the platform gives.
    let mut e = env(&bin, PATH, TMP, true);
    e.bin_entries = vec![bin.clone()];
    let (settings, status) = gen_env_settings_by(&Shells::Fish, e).unwrap();
    assert_eq!(status, GenerateStatus::UseOldDirsOnly);
    assert_eq!(settings.unwrap().bin, bin_of(TMP));
}

#[test]
fn recorded_dir_without_grandparent_is_an_error() {
    let r = gen_env_settings_by(&Bash, env("x", PATH, TMP, true));
    assert_eq!(r.err(), Some(GenCommandError::ParsePathError));
    let r = gen_env_settings_by(&Bash, env("x", PATH, TMP, false));
    assert_eq!(r.err(), Some(GenCommandError::ParsePathError));
}

#[test]
fn cwd_with_trailing_slash() {
    let (settings, _) = run("", PATH, "/tmp/project/", true);
    assert_eq!(settings.unwrap().bin, "/tmp/project/node_modules/.bin");
}

#[test]
fn environment_settings_new() {
    let s = EnvironmentSettings::new("a".to_string(), "b".to_string());
    assert_eq!(s.bin, "a");
    assert_eq!(s.path, "b");
}

#[test]
fn powershell_on_windows_joins_with_semicolons() {
    // The entries as Windows splits `PATH` and `_NPX_BIN` at `;`.
    let bin = bin_of(TMP);
    let e = Environment {
        bin: bin.clone(),
        bin_entries: vec![bin.clone()],
        path_entries: vec!["/usr/bin".to_string(), "/bin".to_string()],
        cwd: "/tmp/project/foo".to_string(),
        has_node_modules: true,
    };
    let shell = PowerShell { platform: Platform::Windows };
    let (settings, status) = gen_env_settings_by(&shell, e).unwrap();
    assert_eq!(status, GenerateStatus::ConcatDirs);
    let settings = settings.unwrap();
    assert_eq!(settings.bin, format!("{};{}", bin_of("/tmp/project/foo"), bin));
    assert_eq!(settings.path, "/usr/bin;/bin");
}

#[test]
fn powershell_on_unix_joins_with_colons() {
    let shell = PowerShell { platform: Platform::Unix };
    let (settings, status) = gen_env_settings_by(&shell, env("", "/usr/bin:/bin", TMP, true)).unwrap();
    assert_eq!(status, GenerateStatus::EmptyVarHasModules);
    assert_eq!(settings.unwrap().path, "/usr/bin:/bin");
}
