use vstd::prelude::*;

use super::Shell;

verus! {

/// The fish shell. It separates the entries of a list variable with spaces.
#[derive(Debug, Clone, Copy, PartialEq, Eq, Structural)]
pub struct Fish;

impl Shell for Fish {
    open spec fn spec_name(&self) -> Seq<char> {
        "fish"@
    }

    open spec fn spec_separator(&self) -> char {
        ' '
    }

    open spec fn spec_set_env(&self, key: Seq<char>, value: Seq<char>) -> Seq<char> {
        "set -gx "@ + key + " "@ + value
    }

    open spec fn spec_setup_script(&self) -> Seq<char> {
        FISH_SETUP_SCRIPT@
    }

    fn name(&self) -> (r: &'static str) {
        "fish"
    }

    fn env_separator(&self) -> (c: char) {
        ' '
    }

    fn env_separator_str(&self) -> (s: &'static str) {
        proof {
            reveal_strlit(" ");
        }
        " "
    }

    fn set_env(&self, key: &str, value: &str) -> (r: String) {
        let mut r = String::new();
        r.append("set -gx ");
        r.append(key);
        r.append(" ");
        r.append(value);
        r
    }

    fn gen_setup_script(&self) -> (r: &'static str) {
        FISH_SETUP_SCRIPT
    }
}

/// Runs the crate whenever fish's working directory changes.
pub const FISH_SETUP_SCRIPT: &'static str = r#"
function __npx_bin_helper -v PWD
    eval (npx-bin-helper -s fish)
end

__npx_bin_helper
"#;

/// The script has the stated length and calls the crate back as `npx-bin-helper -s fish`.
pub proof fn lemma_script_calls_back()
    ensures
        FISH_SETUP_SCRIPT@.len() == 90,
        FISH_SETUP_SCRIPT@.subrange(44, 66) == "npx-bin-helper -s fish"@,
{
    reveal_strlit(r#"
function __npx_bin_helper -v PWD
    eval (npx-bin-helper -s fish)
end

__npx_bin_helper
"#);
    reveal_strlit("npx-bin-helper -s fish");
    assert(FISH_SETUP_SCRIPT@.subrange(44, 66) =~= "npx-bin-helper -s fish"@);
}

} // verus!
