use vstd::prelude::*;

use super::Shell;
use crate::{env_separator, env_separator_str, list_separator, Platform};

verus! {

/// PowerShell, on the platform it runs on: it separates the entries of a
/// list variable with `;` on Windows and `:` elsewhere.
#[derive(Debug, Clone, Copy, PartialEq, Eq, Structural)]
pub struct PowerShell {
    pub platform: Platform,
}

impl Shell for PowerShell {
    open spec fn spec_name(&self) -> Seq<char> {
        "powershell"@
    }

    open spec fn spec_separator(&self) -> char {
        list_separator(self.platform)
    }

    open spec fn spec_set_env(&self, key: Seq<char>, value: Seq<char>) -> Seq<char> {
        "$env:"@ + key + " = \""@ + value + "\""@
    }

    open spec fn spec_setup_script(&self) -> Seq<char> {
        POWERSHELL_SETUP_SCRIPT@
    }

    fn name(&self) -> (r: &'static str) {
        "powershell"
    }

    fn env_separator(&self) -> (c: char) {
        env_separator(self.platform)
    }

    fn env_separator_str(&self) -> (s: &'static str) {
        env_separator_str(self.platform)
    }

    fn set_env(&self, key: &str, value: &str) -> (r: String) {
        let mut r = String::new();
        r.append("$env:");
        r.append(key);
        r.append(" = \"");
        r.append(value);
        r.append("\"");
        r
    }

    fn gen_setup_script(&self) -> (r: &'static str) {
        POWERSHELL_SETUP_SCRIPT
    }
}

/// Hooks the crate into PowerShell's prompt.
pub const POWERSHELL_SETUP_SCRIPT: &'static str = r#"
function __npx_bin_helper_pwd {
    $cwd = Get-Location
    if ($cwd.Provider.Name -eq "FileSystem") {
        $cwd.ProviderPath
    }
}

function __npx_bin_helper {
    $result = __npx_bin_helper_pwd
    if ($null -ne $result) {
        npx-bin-helper -s powershell | Out-String | Invoke-Expression
    }
}

$__npx_bin_helper_hooked = (Get-Variable __npx_bin_helper_hooked -ValueOnly -ErrorAction SilentlyContinue)

if ($__npx_bin_helper_hooked -ne 1) {
    $__npx_bin_helper_hooked = 1
    $prompt_old = $function:prompt
    function prompt {
        $null = __npx_bin_helper
        & $prompt_old
    }
}
"#;

/// The script has the stated length and calls the crate back as `npx-bin-helper -s powershell`.
pub proof fn lemma_script_calls_back()
    ensures
        POWERSHELL_SETUP_SCRIPT@.len() == 609,
        POWERSHELL_SETUP_SCRIPT@.subrange(239, 267) == "npx-bin-helper -s powershell"@,
{
    reveal_strlit(r#"
function __npx_bin_helper_pwd {
    $cwd = Get-Location
    if ($cwd.Provider.Name -eq "FileSystem") {
        $cwd.ProviderPath
    }
}

function __npx_bin_helper {
    $result = __npx_bin_helper_pwd
    if ($null -ne $result) {
        npx-bin-helper -s powershell | Out-String | Invoke-Expression
    }
}

$__npx_bin_helper_hooked = (Get-Variable __npx_bin_helper_hooked -ValueOnly -ErrorAction SilentlyContinue)

if ($__npx_bin_helper_hooked -ne 1) {
    $__npx_bin_helper_hooked = 1
    $prompt_old = $function:prompt
    function prompt {
        $null = __npx_bin_helper
        & $prompt_old
    }
}
"#);
    reveal_strlit("npx-bin-helper -s powershell");
    assert(POWERSHELL_SETUP_SCRIPT@.subrange(239, 267) =~= "npx-bin-helper -s powershell"@);
}

} // verus!
