use npx_bin_helper::commands::env::env_commands;
use npx_bin_helper::commands::env::format::format_env_settings;
use npx_bin_helper::generate::EnvironmentSettings;
use npx_bin_helper::shells::{Bash, Fish, PowerShell, Shells};
use npx_bin_helper::Platform;

#[test]
fn env_commands_nothing_to_set() {
    assert!(env_commands(&Bash, None).is_empty());
}

#[test]
fn env_commands_bash() {
    let lines = env_commands(&Bash, Some(EnvironmentSettings::new("/p/node_modules/.bin".into(), "/usr/bin".into())));
    assert_eq!(
        lines,
        vec![
            "export _NPX_BIN=\"/p/node_modules/.bin\"".to_string(),
            "export PATH=\"/p/node_modules/.bin:/usr/bin\"".to_string(),
        ]
    );
}

#[test]
fn env_commands_reset_keeps_path_alone() {
    let lines = env_commands(&Fish, Some(EnvironmentSettings::new(String::new(), "/usr/bin /bin".into())));
    assert_eq!(lines, vec!["set -gx _NPX_BIN ".to_string(), "set -gx PATH /usr/bin /bin".to_string()]);
}

#[test]
fn env_commands_powershell() {
    let unix = PowerShell { platform: Platform::Unix };
    let lines = env_commands(&unix, Some(EnvironmentSettings::new("/p/b".into(), "/usr/bin".into())));
    assert_eq!(
        lines,
        vec!["$env:_NPX_BIN = \"/p/b\"".to_string(), "$env:PATH = \"/p/b:/usr/bin\"".to_string()]
    );
    let windows = Shells::PowerShell(Platform::Windows);
    let lines = env_commands(&windows, Some(EnvironmentSettings::new("C:\\p\\b".into(), "C:\\bin".into())));
    assert_eq!(
        lines,
        vec!["$env:_NPX_BIN = \"C:\\p\\b\"".to_string(), "$env:PATH = \"C:\\p\\b;C:\\bin\"".to_string()]
    );
}

#[test]
fn format_env_settings_exports() {
    let s = EnvironmentSettings::new("/p/node_modules/.bin".into(), "/usr/bin".into());
    assert_eq!(
        format_env_settings(Shells::Fish, s),
        "export _NPX_BIN=/p/node_modules/.bin;export PATH=/usr/bin"
    );
}
