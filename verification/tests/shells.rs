use npx_bin_helper::shells::{resolve_shell, Bash, Fish, PowerShell, ResolveShellError, Shell, Shells, Zsh};
use npx_bin_helper::Platform;

const PS: PowerShell = PowerShell { platform: Platform::Unix };

#[test]
fn resolve_known_shells() {
    assert_eq!(resolve_shell("bash", Platform::Unix), Ok(Shells::Bash));
    assert_eq!(resolve_shell("zsh", Platform::Unix), Ok(Shells::Zsh));
    assert_eq!(resolve_shell("fish", Platform::Unix), Ok(Shells::Fish));
    assert_eq!(resolve_shell("pwsh", Platform::Unix), Ok(Shells::PowerShell(Platform::Unix)));
    assert_eq!(resolve_shell("powershell", Platform::Unix), Ok(Shells::PowerShell(Platform::Unix)));
}

#[test]
fn resolve_unknown_shell() {
    assert_eq!(resolve_shell("tcsh", Platform::Unix), Err(ResolveShellError::UnsupportedShell));
    assert_eq!(resolve_shell("", Platform::Unix), Err(ResolveShellError::UnsupportedShell));
    assert_eq!(resolve_shell("Bash", Platform::Unix), Err(ResolveShellError::UnsupportedShell));
}

#[test]
fn names_and_separators() {
    assert_eq!(Bash.name(), "bash");
    assert_eq!(Zsh.name(), "zsh");
    assert_eq!(Fish.name(), "fish");
    assert_eq!(PS.name(), "powershell");
    assert_eq!(Bash.env_separator(), ':');
    assert_eq!(Zsh.env_separator_str(), ":");
    assert_eq!(Fish.env_separator(), ' ');
    assert_eq!(Fish.env_separator_str(), " ");
    assert_eq!(PS.env_separator(), ':');
    assert_eq!(Shells::Fish.env_separator(), ' ');
    assert_eq!(Shells::PowerShell(Platform::Unix).name(), "powershell");
}

#[test]
fn set_env_forms() {
    assert_eq!(Bash.set_env("A", "b c"), "export A=\"b c\"");
    assert_eq!(Zsh.set_env("A", "b"), "export A=\"b\"");
    assert_eq!(Fish.set_env("A", "b c"), "set -gx A b c");
    assert_eq!(PS.set_env("A", "b"), "$env:A = \"b\"");
    assert_eq!(Shells::Zsh.set_env("K", "v"), "export K=\"v\"");
}

#[test]
fn setup_scripts() {
    assert!(Bash.gen_setup_script().contains("PROMPT_COMMAND=\"__npx_bin_helper_hook;${PROMPT_COMMAND#;}\""));
    assert!(Zsh.gen_setup_script().contains("add-zsh-hook chpwd __npx_bin_helper && __npx_bin_helper"));
    assert!(Fish.gen_setup_script().contains("function __npx_bin_helper -v PWD"));
    assert!(PS.gen_setup_script().contains("npx-bin-helper -s powershell | Out-String | Invoke-Expression"));
    assert_eq!(Shells::Bash.gen_setup_script(), Bash.gen_setup_script());
}

#[test]
fn powershell_separator_follows_platform() {
    let windows = PowerShell { platform: Platform::Windows };
    assert_eq!(windows.env_separator(), ';');
    assert_eq!(windows.env_separator_str(), ";");
    assert_eq!(PS.env_separator(), ':');
    assert_eq!(resolve_shell("pwsh", Platform::Windows), Ok(Shells::PowerShell(Platform::Windows)));
    assert_eq!(Shells::PowerShell(Platform::Windows).env_separator(), ';');
}
