//! The capability contract: what every execution environment tells the agent
//! about itself, and the values that pass through it.

use vstd::prelude::*;

verus! {

/// The two families of hosts whose command interpreters differ.
#[derive(Debug, Clone, Copy, PartialEq, Eq)]
pub enum HostFamily {
    /// Hosts whose interpreter is the command processor named by `COMSPEC`.
    Windows,
    /// All other hosts; their interpreter is `sh`.
    Posix,
}

/// What a host hands to the construction of a process: its family, what
/// its lookup of `COMSPEC` gave, and its table of environment variables.
#[derive(Debug, Clone, PartialEq, Eq)]
pub struct HostEnvironment {
    pub family: HostFamily,
    pub comspec: Option<String>,
    pub vars: Vec<(String, String)>,
}

/// A host's environment as plain values.
pub struct HostEnvironmentView {
    pub family: HostFamily,
    pub comspec: Option<Seq<char>>,
    pub vars: Seq<(Seq<char>, Seq<char>)>,
}

/// A process that has not been started: the program to run, its arguments,
/// the directory to run it in and the environment variables to give it.
#[derive(Debug, Clone, PartialEq, Eq)]
pub struct ProcessDescription {
    pub program: String,
    pub args: Vec<String>,
    pub working_dir: String,
    pub env: Vec<(String, String)>,
}

/// A process description as plain values.
pub struct ProcessView {
    pub program: Seq<char>,
    pub args: Seq<Seq<char>>,
    pub working_dir: Seq<char>,
    pub env: Seq<(Seq<char>, Seq<char>)>,
}

/// Why an environment did not build a process description.
#[derive(Debug, Clone, Copy, PartialEq, Eq)]
pub enum InvocationError {
    /// The command cannot be turned into a process for this environment.
    Rejected,
}

/// A list of strings as plain values.
pub open spec fn strings_view(strings: Seq<String>) -> Seq<Seq<char>> {
    Seq::new(strings.len(), |i: int| strings[i]@)
}

/// A table of environment variables as plain values.
pub open spec fn vars_view(vars: Seq<(String, String)>) -> Seq<(Seq<char>, Seq<char>)> {
    Seq::new(vars.len(), |i: int| (vars[i].0@, vars[i].1@))
}

impl View for HostEnvironment {
    type V = HostEnvironmentView;

    open spec fn view(&self) -> HostEnvironmentView {
        HostEnvironmentView {
            family: self.family,
            comspec: match self.comspec {
                Some(shell) => Some(shell@),
                None => None,
            },
            vars: vars_view(self.vars@),
        }
    }
}

impl View for ProcessDescription {
    type V = ProcessView;

    open spec fn view(&self) -> ProcessView {
        ProcessView {
            program: self.program@,
            args: strings_view(self.args@),
            working_dir: self.working_dir@,
            env: vars_view(self.env@),
        }
    }
}

/// The outcome of a construction as plain values.
pub open spec fn outcome_view(outcome: Result<ProcessDescription, InvocationError>) -> Result<
    ProcessView,
    InvocationError,
> {
    match outcome {
        Ok(description) => Ok(description@),
        Err(error) => Err(error),
    }
}

/// The capability contract. The agent asks an environment what it permits
/// before it acts, and branches on these answers alone, never on the name.
///
/// Every answer is a function of the environment's value: an environment
/// gives the same answer however often it is asked, and no call changes it.
pub trait RuntimeAdapter {
    /// The short name of the environment.
    spec fn identity(&self) -> Seq<char>;

    /// Whether shell commands may be run.
    spec fn permits_shell(&self) -> bool;

    /// Whether the file system may be used.
    spec fn permits_filesystem(&self) -> bool;

    /// Whether processes may outlive a single request.
    spec fn permits_long_running(&self) -> bool;

    /// The memory the environment grants, in bytes; 0 where it sets no limit.
    spec fn memory_limit(&self) -> u64;

    /// The directory under which the agent keeps its state.
    spec fn storage_root(&self) -> Seq<char>;

    /// The process that runs `command` through the host's interpreter in
    /// `working_dir`, or the reason why the environment builds none.
    spec fn invocation(
        &self,
        command: Seq<char>,
        working_dir: Seq<char>,
        host: HostEnvironmentView,
    ) -> Result<ProcessView, InvocationError>;

    /// The short name of the environment, for logs and diagnostics.
    fn name(&self) -> (name: &str)
        ensures
            name@ == self.identity(),
    ;

    /// Whether shell commands may be run.
    fn has_shell_access(&self) -> (permitted: bool)
        ensures
            permitted == self.permits_shell(),
    ;

    /// Whether the file system may be used.
    fn has_filesystem_access(&self) -> (permitted: bool)
        ensures
            permitted == self.permits_filesystem(),
    ;

    /// Whether processes may outlive a single request.
    fn supports_long_running(&self) -> (permitted: bool)
        ensures
            permitted == self.permits_long_running(),
    ;

    /// The memory the environment grants, in bytes; 0 where it sets no limit.
    fn memory_budget(&self) -> (bytes: u64)
        ensures
            bytes == self.memory_limit(),
    ;

    /// The directory under which the agent keeps its state. It is not
    /// created here.
    fn storage_path(&self) -> (path: String)
        ensures
            path@ == self.storage_root(),
    ;

    /// Describes the process that runs `command` through the host's command
    /// interpreter in `workspace_dir`. Nothing is started.
    fn build_shell_command(
        &self,
        command: &str,
        workspace_dir: &str,
        host: &HostEnvironment,
    ) -> (outcome: Result<ProcessDescription, InvocationError>)
        ensures
            outcome_view(outcome) == self.invocation(command@, workspace_dir@, host@),
    ;
}

/// The capability flags of an environment, taken together.
pub struct CapabilityFlags {
    pub shell: bool,
    pub filesystem: bool,
    pub long_running: bool,
    pub memory_limit: u64,
}

/// The flags that the four queries of `adapter` answer with.
pub open spec fn capability_flags<R: RuntimeAdapter>(adapter: &R) -> CapabilityFlags {
    CapabilityFlags {
        shell: adapter.permits_shell(),
        filesystem: adapter.permits_filesystem(),
        long_running: adapter.permits_long_running(),
        memory_limit: adapter.memory_limit(),
    }
}

/// The capability flags are stable: whatever an environment answered once
/// it answers again, also after it has built process descriptions, since
/// building takes the environment as it is and leaves it so.
pub proof fn lemma_flags_are_stable<R: RuntimeAdapter>(
    adapter: &R,
    earlier: CapabilityFlags,
    later: CapabilityFlags,
)
    requires
        earlier == capability_flags(adapter),
        later == capability_flags(adapter),
    ensures
        earlier == later,
{
}

/// Asking for the storage path is idempotent: two answers of one
/// environment are the same path.
pub proof fn lemma_storage_path_is_idempotent<R: RuntimeAdapter>(
    adapter: &R,
    first: String,
    second: String,
)
    requires
        first@ == adapter.storage_root(),
        second@ == adapter.storage_root(),
    ensures
        first@ == second@,
{
}

} // verus!
