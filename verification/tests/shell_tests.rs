use core::ops::ControlFlow;

use workspace_panels::panel::TerminalPanel;
use workspace_panels::shell::{
    retrieve_system_shell, to_cmd_variable, to_powershell_variable, to_windows_shell_type,
    to_windows_shell_variable, HostOs, RevealStrategy, RevealTarget, Shell, SpawnInTerminal,
    TaskId, WindowsShellType,
};

fn spawn(shell: Shell) -> SpawnInTerminal {
    SpawnInTerminal {
        id: TaskId("task-1".to_string()),
        full_label: "cargo build".to_string(),
        command: "cargo".to_string(),
        args: vec!["build".to_string(), "--verbose".to_string()],
        command_label: "cargo build".to_string(),
        use_new_terminal: false,
        allow_concurrent_runs: false,
        reveal: RevealStrategy::Always,
        reveal_target: RevealTarget::Dock,
        shell,
    }
}

#[test]
fn cmd_variable_forms() {
    assert_eq!(to_cmd_variable("${FOO}".to_string()), "%FOO%");
    assert_eq!(to_cmd_variable("$FOO".to_string()), "%FOO%");
    assert_eq!(to_cmd_variable("${FOO:-bar}".to_string()), "${FOO:-bar}");
    assert_eq!(to_cmd_variable("plain".to_string()), "plain");
}

#[test]
fn powershell_variable_forms() {
    assert_eq!(to_powershell_variable("${FOO}".to_string()), "$env:FOO");
    assert_eq!(to_powershell_variable("$FOO".to_string()), "$env:FOO");
    assert_eq!(
        to_powershell_variable("${FOO:-bar}".to_string()),
        "${FOO:-bar}"
    );
    assert_eq!(to_powershell_variable("plain".to_string()), "plain");
}

#[test]
fn windows_shell_types() {
    assert_eq!(
        to_windows_shell_type("powershell"),
        WindowsShellType::Powershell
    );
    assert_eq!(
        to_windows_shell_type("C:\\tools\\pwsh.exe"),
        WindowsShellType::Powershell
    );
    assert_eq!(to_windows_shell_type("pwsh"), WindowsShellType::Powershell);
    assert_eq!(to_windows_shell_type("cmd"), WindowsShellType::Cmd);
    assert_eq!(
        to_windows_shell_type("C:\\Windows\\cmd.exe"),
        WindowsShellType::Cmd
    );
    assert_eq!(to_windows_shell_type("bash"), WindowsShellType::Other);
}

#[test]
fn windows_shell_variable_dispatch() {
    assert_eq!(
        to_windows_shell_variable(WindowsShellType::Powershell, "$A".to_string()),
        "$env:A"
    );
    assert_eq!(
        to_windows_shell_variable(WindowsShellType::Cmd, "$A".to_string()),
        "%A%"
    );
    assert_eq!(
        to_windows_shell_variable(WindowsShellType::Other, "$A".to_string()),
        "$A"
    );
}

#[test]
fn system_shell_per_os() {
    assert_eq!(
        retrieve_system_shell(HostOs::Unix, Some("/bin/zsh".to_string())),
        Some("/bin/zsh".to_string())
    );
    assert_eq!(retrieve_system_shell(HostOs::Unix, None), None);
    assert_eq!(
        retrieve_system_shell(HostOs::Windows, None),
        Some("powershell".to_string())
    );
}

#[test]
fn fill_command_unix_system_shell() {
    let source = spawn(Shell::System);
    let mut task = source.clone();
    let r = TerminalPanel::fill_command(
        HostOs::Unix,
        true,
        Some("/bin/bash".to_string()),
        &source,
        &mut task,
    );
    assert!(matches!(r, ControlFlow::Continue(())));
    assert_eq!(task.command, "/bin/bash");
    assert_eq!(task.command_label, "/bin/bash -i -c 'cargo build'");
    assert_eq!(
        task.args,
        vec![
            "-i".to_string(),
            "-c".to_string(),
            "cargo build --verbose".to_string()
        ]
    );
    assert_eq!(task.full_label, "cargo build");
}

#[test]
fn fill_command_remote_fallback_shell() {
    let source = spawn(Shell::System);
    let mut task = source.clone();
    let r = TerminalPanel::fill_command(HostOs::Unix, false, None, &source, &mut task);
    assert!(matches!(r, ControlFlow::Continue(())));
    assert_eq!(task.command, "\"${SHELL:-sh}\"");
    assert_eq!(task.command_label, "\"${SHELL:-sh}\" -i -c 'cargo build'");
}

#[test]
fn fill_command_breaks_without_shell() {
    let source = spawn(Shell::System);
    let mut task = source.clone();
    let r = TerminalPanel::fill_command(HostOs::Unix, true, None, &source, &mut task);
    assert!(matches!(r, ControlFlow::Break(())));
    assert_eq!(task.command, "cargo");
    assert_eq!(task.command_label, "cargo build");
    assert_eq!(task.args, vec!["build".to_string(), "--verbose".to_string()]);
}

#[test]
fn fill_command_windows_powershell() {
    let mut source = spawn(Shell::Program("powershell".to_string()));
    source.args = vec!["$FOO".to_string()];
    let mut task = source.clone();
    let r = TerminalPanel::fill_command(HostOs::Windows, true, None, &source, &mut task);
    assert!(matches!(r, ControlFlow::Continue(())));
    assert_eq!(task.command, "powershell");
    assert_eq!(task.command_label, "powershell -C 'cargo build'");
    assert_eq!(
        task.args,
        vec!["-C".to_string(), "cargo $env:FOO".to_string()]
    );
}

#[test]
fn fill_command_windows_cmd_with_user_args() {
    let mut source = spawn(Shell::WithArguments {
        program: "cmd".to_string(),
        args: vec!["/d".to_string()],
    });
    source.args = vec!["${VAR}".to_string()];
    let mut task = source.clone();
    let r = TerminalPanel::fill_command(HostOs::Windows, true, None, &source, &mut task);
    assert!(matches!(r, ControlFlow::Continue(())));
    assert_eq!(task.command, "cmd");
    assert_eq!(task.command_label, "cmd /C 'cargo build'");
    assert_eq!(
        task.args,
        vec!["/d".to_string(), "/C".to_string(), "cargo %VAR%".to_string()]
    );
}

#[test]
fn fill_command_windows_other_shell() {
    let mut source = spawn(Shell::Program("bash".to_string()));
    source.args = vec!["$FOO".to_string()];
    let mut task = source.clone();
    let r = TerminalPanel::fill_command(HostOs::Windows, true, None, &source, &mut task);
    assert!(matches!(r, ControlFlow::Continue(())));
    assert_eq!(task.command_label, "bash -i -c 'cargo build'");
    assert_eq!(
        task.args,
        vec!["-i".to_string(), "-c".to_string(), "cargo $FOO".to_string()]
    );
}
