use vstd::prelude::*;

use super::Shell;

verus! {

/// The Bash shell, Git Bash on Windows included.
#[derive(Debug, Clone, Copy, PartialEq, Eq, Structural)]
pub struct Bash;

impl Shell for Bash {
    open spec fn spec_name(&self) -> Seq<char> {
        "bash"@
    }

    open spec fn spec_separator(&self) -> char {
        ':'
    }

    open spec fn spec_set_env(&self, key: Seq<char>, value: Seq<char>) -> Seq<char> {
        "export "@ + key + "=\""@ + value + "\""@
    }

    open spec fn spec_setup_script(&self) -> Seq<char> {
        BASH_SETUP_SCRIPT@
    }

    fn name(&self) -> (r: &'static str) {
        "bash"
    }

    fn env_separator(&self) -> (c: char) {
        ':'
    }

    fn env_separator_str(&self) -> (s: &'static str) {
        proof {
            reveal_strlit(":");
        }
        ":"
    }

    fn set_env(&self, key: &str, value: &str) -> (r: String) {
        super::export_command(key, value)
    }

    fn gen_setup_script(&self) -> (r: &'static str) {
        BASH_SETUP_SCRIPT
    }
}

/// Hooks the crate into Bash's prompt, so that it runs when the directory changes.
pub const BASH_SETUP_SCRIPT: &'static str = r#"
__npx_bin_helper_pwd="$PWD"

__npx_bin_helper() {
    eval "$(npx-bin-helper -s bash)"
}

__npx_bin_helper_hook() {
    if [ "$PWD" != "$__npx_bin_helper_pwd" ]; then
        __npx_bin_helper_pwd="$PWD"
        __npx_bin_helper
    fi
}

PROMPT_COMMAND="__npx_bin_helper_hook;${PROMPT_COMMAND#;}"
__npx_bin_helper
"#;

/// The script has the stated length and calls the crate back as `npx-bin-helper -s bash`.
pub proof fn lemma_script_calls_back()
    ensures
        BASH_SETUP_SCRIPT@.len() == 315,
        BASH_SETUP_SCRIPT@.subrange(63, 85) == "npx-bin-helper -s bash"@,
{
    reveal_strlit(r#"
__npx_bin_helper_pwd="$PWD"

__npx_bin_helper() {
    eval "$(npx-bin-helper -s bash)"
}

__npx_bin_helper_hook() {
    if [ "$PWD" != "$__npx_bin_helper_pwd" ]; then
        __npx_bin_helper_pwd="$PWD"
        __npx_bin_helper
    fi
}

PROMPT_COMMAND="__npx_bin_helper_hook;${PROMPT_COMMAND#;}"
__npx_bin_helper
"#);
    reveal_strlit("npx-bin-helper -s bash");
    assert(BASH_SETUP_SCRIPT@.subrange(63, 85) =~= "npx-bin-helper -s bash"@);
}

} // verus!
