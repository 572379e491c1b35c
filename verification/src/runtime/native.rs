//! The environment of a host with full access to the operating system:
//! a desktop, a server, a container or a small device.

use crate::runtime::shell::{
    build_shell_invocation,
    command_flag,
    shell_invocation,
    shell_program,
};
use crate::runtime::storage::{
    agent_dir,
    home_view,
    host_storage_root,
    is_last_component,
    is_storage_root,
    lemma_storage_root_names_agent,
    resolve_storage_root,
    storage_root_for,
    AGENT_NAME,
};
use crate::runtime::traits::{
    capability_flags,
    CapabilityFlags,
    HostEnvironment,
    HostEnvironmentView,
    InvocationError,
    ProcessDescription,
    ProcessView,
    RuntimeAdapter,
};
use crate::text::has_infix;
use vstd::prelude::*;

verus! {

/// The short name of the native environment.
pub const NATIVE_NAME: &'static str = "native";

/// The native environment. It permits everything and sets no limit; all it
/// holds is the agent's directory, resolved once when it is made.
pub struct NativeRuntime {
    storage_root: String,
}

impl NativeRuntime {
    #[verifier::type_invariant]
    closed spec fn well_formed(self) -> bool {
        is_storage_root(self.storage_root@)
    }

    /// The native environment of this host. The host is asked once for the
    /// home directory of the current user; the agent's directory lies under
    /// it, or under the current directory where the host knows no home.
    pub fn new() -> (runtime: Self)
        ensures
            is_storage_root(runtime.storage_root()),
    {
        NativeRuntime { storage_root: host_storage_root() }
    }

    /// The native environment of a host whose home directory is `home`.
    pub fn with_home(home: Option<&str>) -> (runtime: Self)
        ensures
            runtime.storage_root() == storage_root_for(home_view(home)),
    {
        NativeRuntime { storage_root: resolve_storage_root(home) }
    }
}

impl RuntimeAdapter for NativeRuntime {
    open spec fn identity(&self) -> Seq<char> {
        NATIVE_NAME@
    }

    open spec fn permits_shell(&self) -> bool {
        true
    }

    open spec fn permits_filesystem(&self) -> bool {
        true
    }

    open spec fn permits_long_running(&self) -> bool {
        true
    }

    open spec fn memory_limit(&self) -> u64 {
        0
    }

    closed spec fn storage_root(&self) -> Seq<char> {
        self.storage_root@
    }

    open spec fn invocation(
        &self,
        command: Seq<char>,
        working_dir: Seq<char>,
        host: HostEnvironmentView,
    ) -> Result<ProcessView, InvocationError> {
        Ok(shell_invocation(host, command, working_dir))
    }

    fn name(&self) -> (name: &str)
        ensures
            name@ == NATIVE_NAME@,
    {
        NATIVE_NAME
    }

    fn has_shell_access(&self) -> (permitted: bool)
        ensures
            permitted,
    {
        true
    }

    fn has_filesystem_access(&self) -> (permitted: bool)
        ensures
            permitted,
    {
        true
    }

    fn supports_long_running(&self) -> (permitted: bool)
        ensures
            permitted,
    {
        true
    }

    /// The native environment sets no limit.
    fn memory_budget(&self) -> (bytes: u64)
        ensures
            bytes == 0,
    {
        0
    }

    /// The agent's directory, as it was resolved when the environment was
    /// made. It holds the agent's name: its last component is that name
    /// behind a dot, whatever the host said of the home directory.
    fn storage_path(&self) -> (path: String)
        ensures
            is_storage_root(path@),
            is_last_component(path@, agent_dir()),
            has_infix(path@, AGENT_NAME@),
    {
        proof {
            use_type_invariant(self);
            let home = choose|home: Option<Seq<char>>|
                self.storage_root@ == #[trigger] storage_root_for(home);
            lemma_storage_root_names_agent(home);
        }
        self.storage_root.clone()
    }

    /// Always succeeds: the native environment refuses no command and no
    /// directory, and describes the process that runs the command through
    /// the interpreter of `host`.
    fn build_shell_command(
        &self,
        command: &str,
        workspace_dir: &str,
        host: &HostEnvironment,
    ) -> (outcome: Result<ProcessDescription, InvocationError>)
        ensures
            outcome matches Ok(process) && process@ == shell_invocation(
                host@,
                command@,
                workspace_dir@,
            ),
    {
        Ok(build_shell_invocation(host, command, workspace_dir))
    }
}

/// Every native environment permits shell commands, the file system and
/// long-running processes, and sets no memory limit: the flags depend on
/// the kind of environment alone.
pub proof fn lemma_native_flags(runtime: &NativeRuntime)
    ensures
        capability_flags(runtime) == (CapabilityFlags {
            shell: true,
            filesystem: true,
            long_running: true,
            memory_limit: 0,
        }),
{
}

/// The native environment builds a description for every command, every
/// directory and every host environment, and the description runs the
/// command, as it is and as the last argument, through the host's
/// interpreter in that directory.
pub proof fn lemma_native_invocation_runs_command(
    runtime: &NativeRuntime,
    command: Seq<char>,
    working_dir: Seq<char>,
    host: HostEnvironmentView,
)
    ensures
        runtime.invocation(command, working_dir, host) matches Ok(process) && {
            &&& process.program == shell_program(host)
            &&& process.args.len() >= 2
            &&& process.args.last() == command
            &&& process.args[process.args.len() - 2] == command_flag(host.family)
            &&& process.working_dir == working_dir
            &&& process.env == host.vars
        },
{
}

} // verus!
