use vstd::prelude::*;

use super::Shell;

verus! {

/// The Z shell.
#[derive(Debug, Clone, Copy, PartialEq, Eq, Structural)]
pub struct Zsh;

impl Shell for Zsh {
    open spec fn spec_name(&self) -> Seq<char> {
        "zsh"@
    }

    open spec fn spec_separator(&self) -> char {
        ':'
    }

    open spec fn spec_set_env(&self, key: Seq<char>, value: Seq<char>) -> Seq<char> {
        "export "@ + key + "=\""@ + value + "\""@
    }

    open spec fn spec_setup_script(&self) -> Seq<char> {
        ZSH_SETUP_SCRIPT@
    }

    fn name(&self) -> (r: &'static str) {
        "zsh"
    }

    fn env_separator(&self) -> (c: char) {
        ':'
    }

    fn env_separator_str(&self) -> (s: &'static str) {
        proof {
            reveal_strlit(":");
        }
        ":"
    }

    fn set_env(&self, key: &str, value: &str) -> (r: String) {
        super::export_command(key, value)
    }

    fn gen_setup_script(&self) -> (r: &'static str) {
        ZSH_SETUP_SCRIPT
    }
}

/// Hooks the crate into zsh's directory changes.
pub const ZSH_SETUP_SCRIPT: &'static str = r#"
__npx_bin_helper() {
    eval "$(npx-bin-helper -s zsh)"
}

add-zsh-hook chpwd __npx_bin_helper && __npx_bin_helper
"#;

/// The script has the stated length and calls the crate back as `npx-bin-helper -s zsh`.
pub proof fn lemma_script_calls_back()
    ensures
        ZSH_SETUP_SCRIPT@.len() == 117,
        ZSH_SETUP_SCRIPT@.subrange(34, 55) == "npx-bin-helper -s zsh"@,
{
    reveal_strlit(r#"
__npx_bin_helper() {
    eval "$(npx-bin-helper -s zsh)"
}

add-zsh-hook chpwd __npx_bin_helper && __npx_bin_helper
"#);
    reveal_strlit("npx-bin-helper -s zsh");
    assert(ZSH_SETUP_SCRIPT@.subrange(34, 55) =~= "npx-bin-helper -s zsh"@);
}

} // verus!
