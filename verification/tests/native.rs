use zeroclaw::runtime::native::{NativeRuntime, NATIVE_NAME};
use zeroclaw::runtime::shell::build_shell_invocation;
use zeroclaw::runtime::storage::{
    host_storage_root, resolve_storage_root, storage_root_of, HomeLookup, AGENT_NAME,
};
use zeroclaw::runtime::traits::{
    HostEnvironment, HostFamily, InvocationError, ProcessDescription, RuntimeAdapter,
};

fn posix_host() -> HostEnvironment {
    HostEnvironment {
        family: HostFamily::Posix,
        comspec: None,
        vars: vec![
            ("PATH".to_string(), "/usr/bin:/bin".to_string()),
            ("TMPDIR".to_string(), "/tmp".to_string()),
        ],
    }
}

fn windows_host(comspec: Option<&str>) -> HostEnvironment {
    HostEnvironment {
        family: HostFamily::Windows,
        comspec: comspec.map(|shell| shell.to_string()),
        vars: vec![("Path".to_string(), "C:\\Windows\\system32".to_string())],
    }
}

#[test]
fn native_name() {
    assert_eq!(NativeRuntime::new().name(), "native");
}

#[test]
fn native_has_shell_access() {
    assert!(NativeRuntime::new().has_shell_access());
}

#[test]
fn native_has_filesystem_access() {
    assert!(NativeRuntime::new().has_filesystem_access());
}

#[test]
fn native_supports_long_running() {
    assert!(NativeRuntime::new().supports_long_running());
}

#[test]
fn native_memory_budget_unlimited() {
    assert_eq!(NativeRuntime::new().memory_budget(), 0);
}

#[test]
fn native_storage_path_contains_zeroclaw() {
    let path = NativeRuntime::new().storage_path();
    assert!(path.contains("zeroclaw"));
}

#[test]
fn native_builds_shell_command() {
    let cwd = "/tmp";
    let command = NativeRuntime::new()
        .build_shell_command("echo hello", cwd, &posix_host())
        .unwrap();
    let debug = format!("{command:?}");
    assert!(debug.contains("echo hello"));
}

#[test]
fn native_windows_uses_cmd_shell() {
    let cwd = "C:\\Temp";
    let command = NativeRuntime::new()
        .build_shell_command("dir", cwd, &windows_host(None))
        .unwrap();
    let debug = format!("{command:?}").to_ascii_lowercase();
    assert!(debug.contains("cmd"));
    assert!(debug.contains("/c"));
}

#[test]
fn native_unix_uses_sh_shell() {
    let cwd = "/tmp";
    let command = NativeRuntime::new()
        .build_shell_command("echo hello", cwd, &posix_host())
        .unwrap();
    let debug = format!("{command:?}");
    assert!(debug.contains("sh"));
    assert!(debug.contains("-c"));
}

#[test]
fn native_name_is_the_constant() {
    assert_eq!(NATIVE_NAME, "native");
    assert_eq!(NativeRuntime::with_home(None).name(), NATIVE_NAME);
}

#[test]
fn posix_invocation_is_sh_dash_c_command() {
    let process = NativeRuntime::with_home(None)
        .build_shell_command("echo hello", "/work", &posix_host())
        .unwrap();
    assert_eq!(
        process,
        ProcessDescription {
            program: "sh".to_string(),
            args: vec!["-c".to_string(), "echo hello".to_string()],
            working_dir: "/work".to_string(),
            env: vec![
                ("PATH".to_string(), "/usr/bin:/bin".to_string()),
                ("TMPDIR".to_string(), "/tmp".to_string()),
            ],
        }
    );
}

#[test]
fn windows_invocation_uses_comspec() {
    let host = windows_host(Some("C:\\Windows\\system32\\cmd.exe"));
    let process = NativeRuntime::with_home(None)
        .build_shell_command("dir /b", "C:\\work", &host)
        .unwrap();
    assert_eq!(
        process,
        ProcessDescription {
            program: "C:\\Windows\\system32\\cmd.exe".to_string(),
            args: vec![
                "/d".to_string(),
                "/s".to_string(),
                "/c".to_string(),
                "dir /b".to_string(),
            ],
            working_dir: "C:\\work".to_string(),
            env: vec![("Path".to_string(), "C:\\Windows\\system32".to_string())],
        }
    );
}

#[test]
fn windows_invocation_defaults_to_cmd_exe() {
    let process = build_shell_invocation(&windows_host(None), "dir", "C:\\");
    assert_eq!(process.program, "cmd.exe");
    assert_eq!(process.args, vec!["/d", "/s", "/c", "dir"]);
}

#[test]
fn posix_invocation_ignores_comspec() {
    let mut host = posix_host();
    host.comspec = Some("C:\\cmd.exe".to_string());
    let process = build_shell_invocation(&host, "ls", ".");
    assert_eq!(process.program, "sh");
    assert_eq!(process.args, vec!["-c", "ls"]);
}

#[test]
fn command_is_a_single_argument_taken_as_it_is() {
    let command = "  printf '%s\\n' \"a b\" && exit 3 ; # é  ";
    let process = build_shell_invocation(&posix_host(), command, "/tmp");
    assert_eq!(process.args.len(), 2);
    assert_eq!(process.args[1], command);
    let process = build_shell_invocation(&windows_host(None), command, "/tmp");
    assert_eq!(process.args.len(), 4);
    assert_eq!(process.args[3], command);
}

#[test]
fn empty_command_and_directory_are_taken_as_they_are() {
    let host = HostEnvironment { family: HostFamily::Posix, comspec: None, vars: Vec::new() };
    let process = NativeRuntime::with_home(None).build_shell_command("", "", &host).unwrap();
    assert_eq!(
        process,
        ProcessDescription {
            program: "sh".to_string(),
            args: vec!["-c".to_string(), String::new()],
            working_dir: String::new(),
            env: Vec::new(),
        }
    );
}

#[test]
fn working_directory_is_not_validated() {
    let process =
        build_shell_invocation(&posix_host(), "true", "/no/such/../directory//here");
    assert_eq!(process.working_dir, "/no/such/../directory//here");
}

#[test]
fn whole_environment_is_handed_on_in_order() {
    let host = HostEnvironment {
        family: HostFamily::Posix,
        comspec: None,
        vars: vec![
            ("B".to_string(), "2".to_string()),
            ("A".to_string(), "1".to_string()),
            ("B".to_string(), "3".to_string()),
            ("EMPTY".to_string(), String::new()),
        ],
    };
    let process = build_shell_invocation(&host, "env", "/");
    assert_eq!(process.env, host.vars);
}

#[test]
fn building_never_fails_on_the_native_environment() {
    let runtime = NativeRuntime::with_home(None);
    let outcome: Result<ProcessDescription, InvocationError> =
        runtime.build_shell_command("exit 1", "/nowhere", &windows_host(Some("")));
    assert!(outcome.is_ok());
    assert_eq!(outcome.unwrap().program, "");
}

fn shell_command_if_permitted<R: RuntimeAdapter>(
    runtime: &R,
    command: &str,
) -> Option<Result<ProcessDescription, InvocationError>> {
    if runtime.has_shell_access() {
        Some(runtime.build_shell_command(command, "/tmp", &posix_host()))
    } else {
        None
    }
}

#[test]
fn callers_branch_on_the_flags_of_an_environment() {
    let native = NativeRuntime::with_home(None);
    let built = shell_command_if_permitted(&native, "echo hello");
    assert_eq!(
        built.map(|outcome| outcome.map(|process| process.program)),
        Some(Ok("sh".to_string()))
    );
}

#[test]
fn invocation_error_is_a_value_callers_can_match() {
    let refused: Result<ProcessDescription, InvocationError> = Err(InvocationError::Rejected);
    assert_eq!(refused, Err(InvocationError::Rejected));
    assert_eq!(format!("{:?}", InvocationError::Rejected), "Rejected");
}

#[test]
fn building_twice_gives_equal_and_separate_descriptions() {
    let runtime = NativeRuntime::with_home(None);
    let host = posix_host();
    let mut first = runtime.build_shell_command("echo hello", "/tmp", &host).unwrap();
    let second = runtime.build_shell_command("echo hello", "/tmp", &host).unwrap();
    assert_eq!(first, second);
    first.args.push("extra".to_string());
    first.env.clear();
    assert_eq!(second.args, vec!["-c", "echo hello"]);
    assert_eq!(second.env, host.vars);
}

#[test]
fn flags_are_stable_across_calls_and_builds() {
    let runtime = NativeRuntime::with_home(Some("/home/alice"));
    let before = (
        runtime.has_shell_access(),
        runtime.has_filesystem_access(),
        runtime.supports_long_running(),
        runtime.memory_budget(),
    );
    assert_eq!(before, (true, true, true, 0));
    let _ = runtime.build_shell_command("echo hello", "/tmp", &posix_host());
    let _ = runtime.build_shell_command("dir", "C:\\", &windows_host(None));
    let after = (
        runtime.has_shell_access(),
        runtime.has_filesystem_access(),
        runtime.supports_long_running(),
        runtime.memory_budget(),
    );
    assert_eq!(before, after);
    assert_eq!(runtime.name(), "native");
}

#[test]
fn storage_root_is_under_the_home_directory() {
    assert_eq!(resolve_storage_root(Some("/home/alice")), "/home/alice/.zeroclaw");
    assert_eq!(resolve_storage_root(Some("C:\\Users\\Alice")), "C:\\Users\\Alice/.zeroclaw");
    assert_eq!(resolve_storage_root(Some("relative")), "relative/.zeroclaw");
}

#[test]
fn storage_root_gets_no_second_separator() {
    assert_eq!(resolve_storage_root(Some("/")), "/.zeroclaw");
    assert_eq!(resolve_storage_root(Some("/home/alice/")), "/home/alice/.zeroclaw");
}

#[test]
fn storage_root_falls_back_to_the_current_directory() {
    assert_eq!(resolve_storage_root(None), "./.zeroclaw");
    assert_eq!(resolve_storage_root(Some("")), "./.zeroclaw");
}

#[test]
fn storage_root_follows_what_the_host_answered() {
    let found = HomeLookup::Found("/home/alice".to_string());
    assert_eq!(storage_root_of(&found), "/home/alice/.zeroclaw");
    assert_eq!(storage_root_of(&HomeLookup::Found(String::new())), "./.zeroclaw");
    assert_eq!(storage_root_of(&HomeLookup::NotText), "./.zeroclaw");
    assert_eq!(storage_root_of(&HomeLookup::Missing), "./.zeroclaw");
}

#[test]
fn storage_path_names_the_agent_for_every_home() {
    let homes = [None, Some(""), Some("/"), Some("/home/alice"), Some("/home/é/"), Some("x")];
    for home in homes {
        let path = NativeRuntime::with_home(home).storage_path();
        assert_eq!(path.split('/').last(), Some(".zeroclaw"));
        assert!(path.contains(AGENT_NAME));
    }
    assert_eq!(AGENT_NAME, "zeroclaw");
}

#[test]
fn storage_path_is_idempotent() {
    let runtime = NativeRuntime::new();
    let first = runtime.storage_path();
    let second = runtime.storage_path();
    assert_eq!(first, second);
    let runtime = NativeRuntime::with_home(Some("/home/alice"));
    assert_eq!(runtime.storage_path(), "/home/alice/.zeroclaw");
    assert_eq!(runtime.storage_path(), runtime.storage_path());
}

#[test]
fn host_storage_root_ends_in_the_agent_directory() {
    let root = host_storage_root();
    assert!(root.ends_with("/.zeroclaw"));
    assert_eq!(NativeRuntime::new().storage_path().split('/').last(), Some(".zeroclaw"));
}
