//! The shells whose commands the crate writes.
use vstd::prelude::*;

use crate::text::str_eq;
use crate::Platform;

pub use self::bash::Bash;
pub use self::fish::Fish;
pub use self::powershell::PowerShell;
pub use self::zsh::Zsh;

mod bash;
mod fish;
mod powershell;
mod zsh;

verus! {

/// What the crate needs to know of a shell: its name, how it separates the
/// entries of a list variable, how it sets a variable, and the script that
/// hooks the crate into it.
pub trait Shell {
    /// The shell's name.
    spec fn spec_name(&self) -> Seq<char>;

    /// The separator of the entries of a list variable.
    spec fn spec_separator(&self) -> char;

    /// The command that sets the variable `key` to `value`.
    spec fn spec_set_env(&self, key: Seq<char>, value: Seq<char>) -> Seq<char>;

    /// The setup script.
    spec fn spec_setup_script(&self) -> Seq<char>;

    /// The shell's name.
    fn name(&self) -> (r: &'static str)
        ensures
            r@ == self.spec_name(),
    ;

    /// The separator of the entries of a list variable.
    fn env_separator(&self) -> (c: char)
        ensures
            c == self.spec_separator(),
    ;

    /// The separator as a string.
    fn env_separator_str(&self) -> (s: &'static str)
        ensures
            s@ == seq![self.spec_separator()],
    ;

    /// The command that sets the variable `key` to `value`.
    fn set_env(&self, key: &str, value: &str) -> (r: String)
        ensures
            r@ == self.spec_set_env(key@, value@),
    ;

    /// The script that runs the crate whenever the shell changes directory.
    fn gen_setup_script(&self) -> (r: &'static str)
        ensures
            r@ == self.spec_setup_script(),
    ;
}

/// One of the supported shells.
#[derive(Debug, Clone, Copy, PartialEq, Eq, Structural)]
pub enum Shells {
    Bash,
    Zsh,
    Fish,
    PowerShell(Platform),
}

impl Shell for Shells {
    open spec fn spec_name(&self) -> Seq<char> {
        match self {
            Shells::Bash => Bash.spec_name(),
            Shells::Zsh => Zsh.spec_name(),
            Shells::Fish => Fish.spec_name(),
            Shells::PowerShell(p) => PowerShell { platform: *p }.spec_name(),
        }
    }

    open spec fn spec_separator(&self) -> char {
        match self {
            Shells::Bash => Bash.spec_separator(),
            Shells::Zsh => Zsh.spec_separator(),
            Shells::Fish => Fish.spec_separator(),
            Shells::PowerShell(p) => PowerShell { platform: *p }.spec_separator(),
        }
    }

    open spec fn spec_set_env(&self, key: Seq<char>, value: Seq<char>) -> Seq<char> {
        match self {
            Shells::Bash => Bash.spec_set_env(key, value),
            Shells::Zsh => Zsh.spec_set_env(key, value),
            Shells::Fish => Fish.spec_set_env(key, value),
            Shells::PowerShell(p) => PowerShell { platform: *p }.spec_set_env(key, value),
        }
    }

    open spec fn spec_setup_script(&self) -> Seq<char> {
        match self {
            Shells::Bash => Bash.spec_setup_script(),
            Shells::Zsh => Zsh.spec_setup_script(),
            Shells::Fish => Fish.spec_setup_script(),
            Shells::PowerShell(p) => PowerShell { platform: *p }.spec_setup_script(),
        }
    }

    fn name(&self) -> (r: &'static str) {
        match self {
            Shells::Bash => Bash.name(),
            Shells::Zsh => Zsh.name(),
            Shells::Fish => Fish.name(),
            Shells::PowerShell(p) => PowerShell { platform: *p }.name(),
        }
    }

    fn env_separator(&self) -> (c: char) {
        match self {
            Shells::Bash => Bash.env_separator(),
            Shells::Zsh => Zsh.env_separator(),
            Shells::Fish => Fish.env_separator(),
            Shells::PowerShell(p) => PowerShell { platform: *p }.env_separator(),
        }
    }

    fn env_separator_str(&self) -> (s: &'static str) {
        match self {
            Shells::Bash => Bash.env_separator_str(),
            Shells::Zsh => Zsh.env_separator_str(),
            Shells::Fish => Fish.env_separator_str(),
            Shells::PowerShell(p) => PowerShell { platform: *p }.env_separator_str(),
        }
    }

    fn set_env(&self, key: &str, value: &str) -> (r: String) {
        match self {
            Shells::Bash => Bash.set_env(key, value),
            Shells::Zsh => Zsh.set_env(key, value),
            Shells::Fish => Fish.set_env(key, value),
            Shells::PowerShell(p) => PowerShell { platform: *p }.set_env(key, value),
        }
    }

    fn gen_setup_script(&self) -> (r: &'static str) {
        match self {
            Shells::Bash => Bash.gen_setup_script(),
            Shells::Zsh => Zsh.gen_setup_script(),
            Shells::Fish => Fish.gen_setup_script(),
            Shells::PowerShell(p) => PowerShell { platform: *p }.gen_setup_script(),
        }
    }
}

/// `export <key>="<value>"`, the way Bash and zsh set a variable.
pub(crate) fn export_command(key: &str, value: &str) -> (r: String)
    ensures
        r@ == "export "@ + key@ + "=\""@ + value@ + "\""@,
{
    let mut r = String::new();
    r.append("export ");
    r.append(key);
    r.append("=\"");
    r.append(value);
    r.append("\"");
    r
}

/// A shell name that [`resolve_shell`] does not know.
#[derive(Debug, Clone, Copy, PartialEq, Eq, Structural)]
pub enum ResolveShellError {
    /// "Unsupported shell".
    UnsupportedShell,
}

/// The shell that the name `s` given on the command line stands for, on
/// `platform`.
pub open spec fn shell_named(s: Seq<char>, platform: Platform) -> Option<Shells> {
    if s == "bash"@ {
        Some(Shells::Bash)
    } else if s == "zsh"@ {
        Some(Shells::Zsh)
    } else if s == "fish"@ {
        Some(Shells::Fish)
    } else if s == "pwsh"@ || s == "powershell"@ {
        Some(Shells::PowerShell(platform))
    } else {
        None
    }
}

/// The shell named `s` on `platform`: `bash`, `zsh`, `fish`, or `pwsh` or
/// `powershell`.
pub fn resolve_shell(s: &str, platform: Platform) -> (r: Result<Shells, ResolveShellError>)
    ensures
        match r {
            Ok(sh) => shell_named(s@, platform) == Some(sh),
            Err(e) => shell_named(s@, platform) is None && e == ResolveShellError::UnsupportedShell,
        },
{
    if str_eq(s, "bash") {
        Ok(Shells::Bash)
    } else if str_eq(s, "zsh") {
        Ok(Shells::Zsh)
    } else if str_eq(s, "fish") {
        Ok(Shells::Fish)
    } else if str_eq(s, "pwsh") || str_eq(s, "powershell") {
        Ok(Shells::PowerShell(platform))
    } else {
        Err(ResolveShellError::UnsupportedShell)
    }
}

/// Whether `needle` occurs in `hay` as a contiguous piece.
pub open spec fn holds_text(hay: Seq<char>, needle: Seq<char>) -> bool {
    exists|i: int|
        0 <= i && i + needle.len() <= hay.len() && #[trigger] hay.subrange(i, i + needle.len())
            == needle
}

/// Each shell's setup script calls the crate back as `npx-bin-helper -s`
/// with the shell's own name, and that name resolves to the same shell: the
/// hook reaches the shell it was set up for. For PowerShell this is on the
/// platform it was set up for.
pub proof fn law_setup_calls_back(shell: Shells, platform: Platform)
    requires
        shell matches Shells::PowerShell(p) ==> p == platform,
    ensures
        shell_named(shell.spec_name(), platform) == Some(shell),
        holds_text(shell.spec_setup_script(), "npx-bin-helper -s "@ + shell.spec_name()),
{
    reveal_strlit("bash");
    reveal_strlit("zsh");
    reveal_strlit("fish");
    reveal_strlit("pwsh");
    reveal_strlit("powershell");
    reveal_strlit("npx-bin-helper -s ");
    assert("zsh"@.len() != "bash"@.len());
    assert("fish"@[0] != "bash"@[0]);
    assert("fish"@.len() != "zsh"@.len());
    assert("powershell"@.len() != "bash"@.len());
    assert("powershell"@.len() != "zsh"@.len());
    assert("powershell"@.len() != "fish"@.len());
    match shell {
        Shells::Bash => {
            self::bash::lemma_script_calls_back();
            reveal_strlit("npx-bin-helper -s bash");
            let t = "npx-bin-helper -s "@ + "bash"@;
            assert(t =~= "npx-bin-helper -s bash"@);
            assert(t.len() == 22);
            assert(self::bash::BASH_SETUP_SCRIPT@.subrange(63, 63 + t.len() as int) == t);
        },
        Shells::Zsh => {
            self::zsh::lemma_script_calls_back();
            reveal_strlit("npx-bin-helper -s zsh");
            let t = "npx-bin-helper -s "@ + "zsh"@;
            assert(t =~= "npx-bin-helper -s zsh"@);
            assert(t.len() == 21);
            assert(self::zsh::ZSH_SETUP_SCRIPT@.subrange(34, 34 + t.len() as int) == t);
        },
        Shells::Fish => {
            self::fish::lemma_script_calls_back();
            reveal_strlit("npx-bin-helper -s fish");
            let t = "npx-bin-helper -s "@ + "fish"@;
            assert(t =~= "npx-bin-helper -s fish"@);
            assert(t.len() == 22);
            assert(self::fish::FISH_SETUP_SCRIPT@.subrange(44, 44 + t.len() as int) == t);
        },
        Shells::PowerShell(_) => {
            self::powershell::lemma_script_calls_back();
            reveal_strlit("npx-bin-helper -s powershell");
            let t = "npx-bin-helper -s "@ + "powershell"@;
            assert(t =~= "npx-bin-helper -s powershell"@);
            assert(t.len() == 28);
            assert(self::powershell::POWERSHELL_SETUP_SCRIPT@.subrange(239, 239 + t.len() as int) == t);
        },
    }
}

/// Each supported shell behaves as the shell it names: its name, its list
/// separator (for PowerShell the platform's), the command that sets a
/// variable, and its setup script.
pub proof fn law_shells_as_named(key: Seq<char>, value: Seq<char>, platform: Platform)
    ensures
        Shells::Bash.spec_name() == "bash"@,
        Shells::Zsh.spec_name() == "zsh"@,
        Shells::Fish.spec_name() == "fish"@,
        Shells::PowerShell(platform).spec_name() == "powershell"@,
        Shells::Bash.spec_separator() == ':',
        Shells::Zsh.spec_separator() == ':',
        Shells::Fish.spec_separator() == ' ',
        Shells::PowerShell(platform).spec_separator() == crate::list_separator(platform),
        Shells::PowerShell(Platform::Unix).spec_separator() == ':',
        Shells::PowerShell(Platform::Windows).spec_separator() == ';',
        Shells::Bash.spec_set_env(key, value) == "export "@ + key + "=\""@ + value + "\""@,
        Shells::Zsh.spec_set_env(key, value) == "export "@ + key + "=\""@ + value + "\""@,
        Shells::Fish.spec_set_env(key, value) == "set -gx "@ + key + " "@ + value,
        Shells::PowerShell(platform).spec_set_env(key, value) == "$env:"@ + key + " = \""@ + value
            + "\""@,
        Shells::Bash.spec_setup_script() == self::bash::BASH_SETUP_SCRIPT@,
        Shells::Zsh.spec_setup_script() == self::zsh::ZSH_SETUP_SCRIPT@,
        Shells::Fish.spec_setup_script() == self::fish::FISH_SETUP_SCRIPT@,
        Shells::PowerShell(platform).spec_setup_script()
            == self::powershell::POWERSHELL_SETUP_SCRIPT@,
{
}

} // verus!
