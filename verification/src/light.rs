//! The display color filter toggle.
//!
//! Turning the night light on or off is a fire-and-forget invocation of a
//! fixed external OS command. The library decides the exact command line —
//! one parametrized capability instead of two near-identical handlers —
//! and the surrounding process spawns it. A failure of the spawned command
//! is logged there and never reaches the scheduler or the UI.

use vstd::prelude::*;
use vstd::string::StringExecFns;

verus! {

/// View of the program the toggle invokes.
pub open spec fn night_light_program() -> Seq<char> {
    "gsettings"@
}

/// View of the settings schema the toggle writes to.
pub open spec fn night_light_schema() -> Seq<char> {
    "org.gnome.settings-daemon.plugins.color"@
}

/// View of the settings key the toggle writes.
pub open spec fn night_light_key() -> Seq<char> {
    "night-light-enabled"@
}

/// An external command line: a program and its arguments, in order.
pub struct CommandLine {
    /// Program to invoke.
    pub program: String,
    /// Arguments, in the order they are passed.
    pub args: Vec<String>,
}

/// The command line that sets the display color filter. The argument
/// triple selects the night-light setting; the last argument is the
/// desired state, `enabled` mapped to `"true"` or `"false"`.
pub fn night_light_command(enabled: bool) -> (c: CommandLine)
    ensures
        c.program@ == night_light_program(),
        c.args@.len() == 4,
        c.args@[0]@ == "set"@,
        c.args@[1]@ == night_light_schema(),
        c.args@[2]@ == night_light_key(),
        c.args@[3]@ == (if enabled {
            "true"@
        } else {
            "false"@
        }),
{
    let mut args: Vec<String> = Vec::new();
    args.push(String::from_str("set"));
    args.push(String::from_str("org.gnome.settings-daemon.plugins.color"));
    args.push(String::from_str("night-light-enabled"));
    if enabled {
        args.push(String::from_str("true"));
    } else {
        args.push(String::from_str("false"));
    }
    CommandLine { program: String::from_str("gsettings"), args }
}

} // verus!
