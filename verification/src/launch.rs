//! Starting an app: the command line that the platform's command
//! interpreter is run with.
//!
//! The command string of a shortcut is handed over as it is, neither
//! escaped nor checked. Whoever can set a shortcut's command can run
//! anything the interpreter runs.

use vstd::prelude::*;

verus! {

/// A program and the arguments it is started with.
#[derive(Clone, Debug, PartialEq, Eq)]
pub struct LaunchCommand {
    pub program: String,
    pub args: Vec<String>,
}

/// The command that starts the shortcut with the command string `path`: the
/// interpreter `cmd`, told by `/C` to run `path`, unchanged, and to end.
pub fn launch_command(path: &str) -> (command: LaunchCommand)
    ensures
        command.program@ == "cmd"@,
        command.args@.len() == 2,
        command.args@[0]@ == "/C"@,
        command.args@[1]@ == path@,
{
    let mut args: Vec<String> = Vec::new();
    args.push("/C".to_owned());
    args.push(path.to_owned());
    LaunchCommand { program: "cmd".to_owned(), args }
}

} // verus!
