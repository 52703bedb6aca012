use npx_bin_helper::{format_command, gen_command_by};
use npx_bin_helper::commands::env::env_commands;
use npx_bin_helper::generate::{gen_env_settings_by, Environment, GenerateStatus};
use npx_bin_helper::Platform;
use npx_bin_helper::shells::{resolve_shell, Bash, Fish, Shell, Shells};

fn bin_of(dir: &str) -> String {
    format!("{}/node_modules/.bin", dir)
}

fn env(bin: &str, path: &str, cwd: &str, has_node_modules: bool) -> Environment {
    Environment {
        bin: bin.to_string(),
        bin_entries: bin.split(':').map(String::from).collect(),
        path_entries: path.split(':').map(String::from).collect(),
        cwd: cwd.to_string(),
        has_node_modules,
    }
}

#[test]
fn update_is_idempotent() {
    for shell_is_fish in [false, true] {
        let bin = format!("{}:{}", bin_of("/a/b"), bin_of("/x"));
        let run = |bin: String, cwd: &str, nm: bool| {
            if shell_is_fish {
                gen_env_settings_by(&Fish, env(&bin.replace(':', " "), "/usr/bin", cwd, nm))
            } else {
                gen_env_settings_by(&Bash, env(&bin, "/usr/bin", cwd, nm))
            }
            .unwrap()
        };
        let (settings, _) = run(bin, "/a/b/c", true);
        let settings = settings.unwrap();
        let (again, status) = if shell_is_fish {
            gen_env_settings_by(&Fish, env(&settings.bin, "/bin", "/a/b/c", false)).unwrap()
        } else {
            gen_env_settings_by(&Bash, env(&settings.bin, "/bin", "/a/b/c", false)).unwrap()
        };
        assert_eq!(status, GenerateStatus::AlreadyAdded);
        assert!(again.is_none());
    }
}

#[test]
fn bin_list_is_a_stack() {
    let old = vec![bin_of("/a/b"), bin_of("/a"), bin_of("/z")];
    let (settings, _) = gen_env_settings_by(&Bash, env(&old.join(":"), "/usr/bin", "/a/b/c", true)).unwrap();
    let new_list: Vec<String> = settings.unwrap().bin.split(':').map(String::from).collect();
    assert_eq!(new_list[0], bin_of("/a/b/c"));
    assert!(old.ends_with(&new_list[1..]));
}

#[test]
fn leaving_restores_path() {
    let path = "/usr/local/bin:/usr/bin".to_string();
    let (settings, status) = gen_env_settings_by(&Bash, env("", &path, "/p", true)).unwrap();
    assert_eq!(status, GenerateStatus::EmptyVarHasModules);
    let settings = settings.unwrap();
    let lines = env_commands(&Bash, Some(settings));
    let entered_bin = bin_of("/p");
    let entered_path = format!("{}:{}", entered_bin, path);
    assert_eq!(lines[0], Bash.set_env("_NPX_BIN", &entered_bin));
    assert_eq!(lines[1], Bash.set_env("PATH", &entered_path));
    let (settings, status) = gen_env_settings_by(&Bash, env(&entered_bin, &entered_path, "/q", false)).unwrap();
    assert_eq!(status, GenerateStatus::ResetPath);
    let settings = settings.unwrap();
    assert_eq!(settings.bin, "");
    assert_eq!(settings.path, path);
}

#[test]
fn old_bin_dirs_leave_path() {
    let bin = format!("{}:{}", bin_of("/a"), bin_of("/b"));
    let path = format!("/usr/bin:{}:/bin:{}", bin_of("/b"), bin_of("/a"));
    let (settings, _) = gen_env_settings_by(&Bash, env(&bin, &path, "/c", true)).unwrap();
    let settings = settings.unwrap();
    for entry in settings.path.split(':') {
        assert!(!bin.split(':').any(|d| d == entry));
    }
}

#[test]
fn command_matches_settings() {
    let cases = [
        ("", "/usr/bin", "/p"),
        ("/p/node_modules/.bin", "/usr/bin", "/p"),
        ("/p/node_modules/.bin", "/p/node_modules/.bin:/usr/bin", "/p/sub"),
        ("/p/sub/node_modules/.bin:/p/node_modules/.bin", "/usr/bin", "/p"),
        ("/q/node_modules/.bin", "/usr/bin:/q/node_modules/.bin", "/p"),
    ];
    for (bin, path, cwd) in cases {
        let command = gen_command_by(bin, path, cwd, true, Platform::Unix).unwrap();
        let (settings, _) = gen_env_settings_by(&Bash, env(bin, path, cwd, true)).unwrap();
        match settings {
            Some(s) => assert_eq!(command, format_command(&s.bin, &s.path, Platform::Unix)),
            None => assert_eq!(command, ""),
        }
    }
}

#[test]
fn setup_calls_back() {
    for shell in [Shells::Bash, Shells::Zsh, Shells::Fish, Shells::PowerShell(Platform::Windows)] {
        assert_eq!(resolve_shell(shell.name(), Platform::Windows), Ok(shell));
        assert!(shell.gen_setup_script().contains(&format!("npx-bin-helper -s {}", shell.name())));
    }
}
