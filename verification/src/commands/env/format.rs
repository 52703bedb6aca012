//! A fixed `export` form of the settings.
use vstd::prelude::*;

use crate::generate::EnvironmentSettings;
use crate::shells::Shells;
use crate::ENV_NAME;

verus! {

/// The text of [`format_env_settings`].
pub open spec fn env_settings_text(bin: Seq<char>, path: Seq<char>) -> Seq<char> {
    "export "@ + ENV_NAME@ + "="@ + bin + ";export "@ + "PATH="@ + path
}

/// `export _NPX_BIN=<bin>;export PATH=<path>`, whichever the shell.
pub fn format_env_settings(_s: Shells, settings: EnvironmentSettings) -> (r: String)
    ensures
        r@ == env_settings_text(settings.bin@, settings.path@),
{
    let set_env_cmd = "export";
    let mut r = String::new();
    r.append(set_env_cmd);
    r.append(" ");
    r.append(ENV_NAME);
    r.append("=");
    r.append(settings.bin.as_str());
    r.append(";");
    r.append(set_env_cmd);
    r.append(" PATH=");
    r.append(settings.path.as_str());
    proof {
        reveal_strlit("export");
        reveal_strlit(" ");
        reveal_strlit(";");
        reveal_strlit(" PATH=");
        reveal_strlit("export ");
        reveal_strlit(";export ");
        reveal_strlit("PATH=");
        assert(r@ =~= env_settings_text(settings.bin@, settings.path@));
    }
    r
}

} // verus!
