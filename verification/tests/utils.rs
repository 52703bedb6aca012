use npx_bin_helper::shells::{Bash, PowerShell, Shells};
use npx_bin_helper::utils::{
    is_git_bash, to_unix_like_path, unix_like_from_components, PathComponent, PathPrefix, UnixPathError,
};
use npx_bin_helper::Platform;

fn normal(s: &str) -> PathComponent {
    PathComponent::Normal(Some(s.to_string()))
}

#[test]
fn drive_path() {
    let comps = vec![
        PathComponent::Prefix(PathPrefix::Disk(b'C')),
        PathComponent::RootDir,
        normal("Users"),
        normal("me"),
    ];
    assert_eq!(unix_like_from_components(&comps), Ok("/C/Users/me".to_string()));
}

#[test]
fn root_and_relative() {
    assert_eq!(unix_like_from_components(&vec![PathComponent::RootDir]), Ok("/".to_string()));
    assert_eq!(unix_like_from_components(&vec![]), Ok("/".to_string()));
    let comps = vec![PathComponent::CurDir, PathComponent::ParentDir, normal("x")];
    assert_eq!(unix_like_from_components(&comps), Ok("/./../x".to_string()));
}

#[test]
fn unsupported_prefix() {
    let comps = vec![PathComponent::Prefix(PathPrefix::Other), normal("x")];
    assert_eq!(unix_like_from_components(&comps), Err(UnixPathError::UnsupportedPrefix));
}

#[test]
fn not_unicode_component() {
    let comps = vec![normal("a"), PathComponent::Normal(None), PathComponent::Prefix(PathPrefix::Other)];
    assert_eq!(unix_like_from_components(&comps), Err(UnixPathError::NotUnicode));
}

#[test]
fn git_bash() {
    assert!(is_git_bash(&Bash, Platform::Windows));
    assert!(is_git_bash(&Shells::Zsh, Platform::Windows));
    assert!(!is_git_bash(&PowerShell { platform: Platform::Windows }, Platform::Windows));
    assert!(!is_git_bash(&Bash, Platform::Unix));
}

#[test]
fn unix_like_path_of_text() {
    // Taken apart by the rules of the platform the tests are built for.
    assert_eq!(to_unix_like_path("/usr/bin"), Ok("/usr/bin".to_string()));
    assert_eq!(to_unix_like_path("/"), Ok("/".to_string()));
    assert_eq!(to_unix_like_path("./a/../b"), Ok("/./a/../b".to_string()));
    assert_eq!(to_unix_like_path("a//b/"), Ok("/a/b".to_string()));
}
