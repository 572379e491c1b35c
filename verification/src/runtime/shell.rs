//! How a command becomes a process on a host: which interpreter runs it,
//! with which flags, in which directory and environment.

use crate::runtime::traits::{
    strings_view,
    vars_view,
    HostEnvironment,
    HostEnvironmentView,
    HostFamily,
    ProcessDescription,
    ProcessView,
};
use vstd::prelude::*;

verus! {

/// The interpreter of hosts that are not of the Windows family.
pub const POSIX_SHELL: &'static str = "sh";

/// Tells `sh` to run the argument that follows as a command.
pub const POSIX_COMMAND_FLAG: &'static str = "-c";

/// The interpreter of a Windows host on which `COMSPEC` is not set.
pub const WINDOWS_DEFAULT_SHELL: &'static str = "cmd.exe";

/// Tells the command processor not to run its AutoRun commands.
pub const WINDOWS_NO_AUTORUN_FLAG: &'static str = "/d";

/// Tells the command processor to keep the command's quoting as it is.
pub const WINDOWS_QUOTING_FLAG: &'static str = "/s";

/// Tells the command processor to run the argument that follows and end.
pub const WINDOWS_COMMAND_FLAG: &'static str = "/c";

/// The interpreter that runs commands on `host`.
pub open spec fn shell_program(host: HostEnvironmentView) -> Seq<char> {
    match host.family {
        HostFamily::Windows => match host.comspec {
            Some(shell) => shell,
            None => WINDOWS_DEFAULT_SHELL@,
        },
        HostFamily::Posix => POSIX_SHELL@,
    }
}

/// The flag behind which the interpreter of `family` expects the command.
pub open spec fn command_flag(family: HostFamily) -> Seq<char> {
    match family {
        HostFamily::Windows => WINDOWS_COMMAND_FLAG@,
        HostFamily::Posix => POSIX_COMMAND_FLAG@,
    }
}

/// The arguments with which the interpreter of `family` runs `command`:
/// its flags, then the command as one argument, unchanged.
pub open spec fn shell_args(family: HostFamily, command: Seq<char>) -> Seq<Seq<char>> {
    match family {
        HostFamily::Windows => seq![
            WINDOWS_NO_AUTORUN_FLAG@,
            WINDOWS_QUOTING_FLAG@,
            WINDOWS_COMMAND_FLAG@,
            command,
        ],
        HostFamily::Posix => seq![POSIX_COMMAND_FLAG@, command],
    }
}

/// The process that runs `command` on `host` in `working_dir`: the host's
/// interpreter with its flags and the command, the directory as given, and
/// every variable of the host's environment.
pub open spec fn shell_invocation(
    host: HostEnvironmentView,
    command: Seq<char>,
    working_dir: Seq<char>,
) -> ProcessView {
    ProcessView {
        program: shell_program(host),
        args: shell_args(host.family, command),
        working_dir,
        env: host.vars,
    }
}

/// A copy of a table of environment variables.
fn copy_vars(vars: &Vec<(String, String)>) -> (copy: Vec<(String, String)>)
    ensures
        vars_view(copy@) == vars_view(vars@),
{
    let mut copy: Vec<(String, String)> = Vec::new();
    let mut i: usize = 0;
    while i < vars.len()
        invariant
            i <= vars@.len(),
            copy@.len() == i,
            forall|k: int| 0 <= k < i ==> copy@[k].0@ == vars@[k].0@ && copy@[k].1@ == vars@[k].1@,
        decreases vars@.len() - i,
    {
        let name = vars[i].0.clone();
        let value = vars[i].1.clone();
        copy.push((name, value));
        i += 1;
    }
    assert(vars_view(copy@) =~= vars_view(vars@));
    copy
}

/// The interpreter that runs commands on `host`.
fn select_shell(host: &HostEnvironment) -> (program: String)
    ensures
        program@ == shell_program(host@),
{
    match host.family {
        HostFamily::Windows => match &host.comspec {
            Some(shell) => shell.clone(),
            None => String::from_str(WINDOWS_DEFAULT_SHELL),
        },
        HostFamily::Posix => String::from_str(POSIX_SHELL),
    }
}

/// Describes the process that runs `command` through the command
/// interpreter of `host` in `working_dir`.
///
/// On a Windows host the interpreter is the one `COMSPEC` names, `cmd.exe`
/// where it names none, with `/d /s /c`; elsewhere it is `sh` with `-c`.
/// The command follows the flags as a single argument. The directory is
/// taken as it is given, and the whole environment of the host is handed
/// on. Every part of the description is new; nothing is started.
pub fn build_shell_invocation(host: &HostEnvironment, command: &str, working_dir: &str) -> (process:
    ProcessDescription)
    ensures
        process@ == shell_invocation(host@, command@, working_dir@),
{
    let program = select_shell(host);
    let mut args: Vec<String> = Vec::new();
    match host.family {
        HostFamily::Windows => {
            args.push(String::from_str(WINDOWS_NO_AUTORUN_FLAG));
            args.push(String::from_str(WINDOWS_QUOTING_FLAG));
            args.push(String::from_str(WINDOWS_COMMAND_FLAG));
        },
        HostFamily::Posix => {
            args.push(String::from_str(POSIX_COMMAND_FLAG));
        },
    }
    args.push(String::from_str(command));
    assert(strings_view(args@) =~= shell_args(host.family, command@));
    let process = ProcessDescription {
        program,
        args,
        working_dir: String::from_str(working_dir),
        env: copy_vars(&host.vars),
    };
    process
}

} // verus!
