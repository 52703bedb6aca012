use npx_bin_helper::paths::{bin_dir, node_modules_dir};
use npx_bin_helper::{
    env_separator, env_separator_str, format_command, gen_command_by, scan_kept_dirs, strip_bin_path, GenCommandError,
    Platform,
};

#[test]
fn format_command_text() {
    assert_eq!(format_command("/p/b", "/usr/bin", Platform::Unix), "export _NPX_BIN=/p/b;export PATH=$_NPX_BIN:/usr/bin");
    assert_eq!(format_command("", "", Platform::Unix), "export _NPX_BIN=;export PATH=$_NPX_BIN:");
}

#[test]
fn strip_bin_path_gives_the_project() {
    assert_eq!(strip_bin_path("/tmp/project/node_modules/.bin"), Ok("/tmp/project"));
    assert_eq!(strip_bin_path("/a/b"), Ok("/"));
    assert_eq!(strip_bin_path("a/b"), Ok(""));
    assert_eq!(strip_bin_path("/a/b/"), Ok("/"));
}

#[test]
fn strip_bin_path_errors() {
    assert_eq!(strip_bin_path("/"), Err(GenCommandError::ParsePathError));
    assert_eq!(strip_bin_path("/a"), Err(GenCommandError::ParsePathError));
    assert_eq!(strip_bin_path(""), Err(GenCommandError::ParsePathError));
    assert_eq!(strip_bin_path("a"), Err(GenCommandError::ParsePathError));
}

#[test]
fn project_dirs() {
    assert_eq!(node_modules_dir("/p"), "/p/node_modules");
    assert_eq!(node_modules_dir("/"), "/node_modules");
    assert_eq!(bin_dir("/p"), "/p/node_modules/.bin");
    assert_eq!(bin_dir(""), "node_modules/.bin");
}

#[test]
fn gen_command_without_modules_is_empty() {
    assert_eq!(gen_command_by("", "/usr/bin", "/p", false, Platform::Unix), Ok(String::new()));
}

#[test]
fn gen_command_first_entry() {
    assert_eq!(
        gen_command_by("", "/usr/bin", "/p", true, Platform::Unix),
        Ok("export _NPX_BIN=/p/node_modules/.bin;export PATH=$_NPX_BIN:/usr/bin".to_string())
    );
}

#[test]
fn gen_command_already_added() {
    assert_eq!(gen_command_by("/p/node_modules/.bin:/q/x", "/usr/bin", "/p", true, Platform::Unix), Ok(String::new()));
}

#[test]
fn gen_command_nested() {
    let old = "/p/node_modules/.bin";
    let path = format!("{}:/usr/bin", old);
    assert_eq!(
        gen_command_by(old, &path, "/p/sub", true, Platform::Unix),
        Ok(format!(
            "export _NPX_BIN=/p/sub/node_modules/.bin:{};export PATH=$_NPX_BIN:/usr/bin",
            old
        ))
    );
}

#[test]
fn gen_command_back_to_outer() {
    let bin = "/p/sub/node_modules/.bin:/p/node_modules/.bin";
    assert_eq!(
        gen_command_by(bin, "/usr/bin", "/p", true, Platform::Unix),
        Ok("export _NPX_BIN=/p/node_modules/.bin;export PATH=$_NPX_BIN:/usr/bin".to_string())
    );
}

#[test]
fn gen_command_unrelated() {
    assert_eq!(
        gen_command_by("/q/node_modules/.bin", "/usr/bin", "/p", true, Platform::Unix),
        Ok("export _NPX_BIN=/p/node_modules/.bin;export PATH=$_NPX_BIN:/usr/bin".to_string())
    );
}

#[test]
fn gen_command_parse_error() {
    assert_eq!(gen_command_by("x", "/usr/bin", "/p", true, Platform::Unix), Err(GenCommandError::ParsePathError));
}

#[test]
fn separators_by_platform() {
    assert_eq!(env_separator(Platform::Unix), ':');
    assert_eq!(env_separator(Platform::Windows), ';');
    assert_eq!(env_separator_str(Platform::Unix), ":");
    assert_eq!(env_separator_str(Platform::Windows), ";");
}

#[test]
fn format_command_on_windows() {
    assert_eq!(
        format_command("C:\\p\\b", "C:\\bin", Platform::Windows),
        "export _NPX_BIN=C:\\p\\b;export PATH=$_NPX_BIN;C:\\bin"
    );
}

#[test]
fn gen_command_on_windows_splits_at_semicolons() {
    let old = "/p/node_modules/.bin";
    let path = format!("{};/usr/bin", old);
    assert_eq!(
        gen_command_by(old, &path, "/p/sub", true, Platform::Windows),
        Ok(format!(
            "export _NPX_BIN=/p/sub/node_modules/.bin;{};export PATH=$_NPX_BIN;/usr/bin",
            old
        ))
    );
}

#[test]
fn strip_bin_path_is_a_shorter_prefix() {
    for v in ["/tmp/project/node_modules/.bin", "/a/b", "a/b/c", "/a/b/"] {
        let g = strip_bin_path(v).unwrap();
        assert!(v.starts_with(g) && g.len() < v.len());
    }
}

fn strings(v: &[&str]) -> Vec<String> {
    v.iter().map(|s| s.to_string()).collect()
}

#[test]
fn scan_over_given_grandparents() {
    let dirs = strings(&["/a/b/node_modules/.bin", "/x/node_modules/.bin", "/p/node_modules/.bin"]);
    let gps = vec![Some("/a/b".to_string()), Some("/x".to_string()), Some("/p".to_string())];
    let new_dir = "/p/node_modules/.bin".to_string();
    assert_eq!(scan_kept_dirs(&dirs, &gps, &new_dir), Some((2, true)));
    let inner = "/x/y/node_modules/.bin".to_string();
    assert_eq!(scan_kept_dirs(&dirs, &gps, &inner), Some((1, false)));
    let other = "/q/node_modules/.bin".to_string();
    assert_eq!(scan_kept_dirs(&dirs, &gps, &other), Some((3, false)));
    let missing = vec![Some("/a/b".to_string()), None, Some("/p".to_string())];
    assert_eq!(scan_kept_dirs(&dirs, &missing, &new_dir), None);
    assert_eq!(scan_kept_dirs(&dirs, &vec![], &new_dir), None);
}
