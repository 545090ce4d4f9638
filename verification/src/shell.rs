//! Shell selection and task-command assembly for the terminal panel.
//!
//! A task is always spawned inside a shell. These functions pick the shell,
//! rewrite the human-readable command label, and fold the task's command and
//! arguments into the shell's argument list, with the Windows flavours
//! (`cmd`, PowerShell) handled by rewriting `$VAR` / `${VAR}` references.

use core::ops::ControlFlow;
use vstd::prelude::*;

use crate::panel::TerminalPanel;
use crate::text::{clone_string_vec, str_contains_char, str_ends_with, str_eq, str_starts_with};

verus! {

/// The operating-system family of the host, which decides how a command is
/// wrapped in a shell invocation.
#[derive(Clone, Copy, Debug, PartialEq, Eq, Structural)]
pub enum HostOs {
    Unix,
    Windows,
}

/// The flavour of shell a Windows shell program name denotes.
#[derive(Clone, Copy, Debug, PartialEq, Eq, Structural)]
pub enum WindowsShellType {
    Powershell,
    Cmd,
    Other,
}

/// Which shell a task asks to be spawned in.
#[derive(Clone, Debug)]
pub enum Shell {
    /// The user's default shell.
    System,
    /// A specific shell program.
    Program(String),
    /// A specific shell program with arguments passed before the task's own.
    WithArguments { program: String, args: Vec<String> },
}

/// Identifier of a task, unique among the tasks of one workspace.
#[derive(Clone, Debug)]
pub struct TaskId(pub String);

/// Whether and how a freshly spawned terminal is revealed to the user.
#[derive(Clone, Copy, Debug, PartialEq, Eq, Structural)]
pub enum RevealStrategy {
    /// Always show the terminal and focus it.
    Always,
    /// Show the terminal without moving focus to it.
    NoFocus,
    /// Do not show the terminal.
    Never,
}

/// Where a task terminal is placed.
#[derive(Clone, Copy, Debug, PartialEq, Eq, Structural)]
pub enum RevealTarget {
    /// In the editor's central pane area.
    Center,
    /// In the terminal panel's dock.
    Dock,
}

/// Everything needed to spawn a task's terminal.
#[derive(Clone, Debug)]
pub struct SpawnInTerminal {
    /// Identifier of the task being spawned.
    pub id: TaskId,
    /// The task's full, unabbreviated label.
    pub full_label: String,
    /// The program to run.
    pub command: String,
    /// Arguments handed to the program.
    pub args: Vec<String>,
    /// Human-readable form of the command, shown in the terminal's title.
    pub command_label: String,
    /// Spawn into a fresh terminal rather than reusing one.
    pub use_new_terminal: bool,
    /// Allow several instances of the task to run at once.
    pub allow_concurrent_runs: bool,
    /// Whether the terminal is revealed on spawn.
    pub reveal: RevealStrategy,
    /// Where the terminal is placed.
    pub reveal_target: RevealTarget,
    /// The shell the task runs in.
    pub shell: Shell,
}

/// The shell used when a task asks for the system shell: on Unix the `SHELL`
/// environment variable's value, on Windows PowerShell.
pub open spec fn system_shell(os: HostOs, env_shell: Option<String>) -> Option<Seq<char>> {
    match os {
        HostOs::Unix => match env_shell {
            Some(s) => Some(s@),
            None => None,
        },
        HostOs::Windows => Some("powershell"@),
    }
}

/// Pick the system shell. `env_shell` is the value of the `SHELL`
/// environment variable, if set; it decides the answer only on Unix.
pub fn retrieve_system_shell(os: HostOs, env_shell: Option<String>) -> (r: Option<String>)
    ensures
        match r {
            Some(s) => system_shell(os, env_shell) == Some(s@),
            None => system_shell(os, env_shell) is None,
        },
{
    match os {
        HostOs::Unix => env_shell,
        HostOs::Windows => Some(String::from_str("powershell")),
    }
}

/// The shell flavour a Windows shell program name denotes.
pub open spec fn windows_shell_type(shell: Seq<char>) -> WindowsShellType {
    if shell == "powershell"@ || "powershell.exe"@.is_suffix_of(shell) || shell == "pwsh"@
        || "pwsh.exe"@.is_suffix_of(shell) {
        WindowsShellType::Powershell
    } else if shell == "cmd"@ || "cmd.exe"@.is_suffix_of(shell) {
        WindowsShellType::Cmd
    } else {
        // Some other shell, possibly a unix-like one the user installed.
        WindowsShellType::Other
    }
}

/// Classify a Windows shell program name by its flavour.
pub fn to_windows_shell_type(shell: &str) -> (r: WindowsShellType)
    ensures
        r == windows_shell_type(shell@),
{
    if str_eq(shell, "powershell") || str_ends_with(shell, "powershell.exe") || str_eq(
        shell,
        "pwsh",
    ) || str_ends_with(shell, "pwsh.exe") {
        WindowsShellType::Powershell
    } else if str_eq(shell, "cmd") || str_ends_with(shell, "cmd.exe") {
        WindowsShellType::Cmd
    } else {
        WindowsShellType::Other
    }
}

/// `${VAR}` or `$VAR` rewritten to `%VAR%` for `cmd`. A `${VAR:-default}`
/// form is not rewritten, and neither is anything else.
pub open spec fn cmd_variable(input: Seq<char>) -> Seq<char> {
    if "${"@.is_prefix_of(input) {
        if !input.skip(2).contains(':') {
            "%"@ + input.subrange(2, input.len() - 1) + "%"@
        } else {
            input
        }
    } else if "$"@.is_prefix_of(input) {
        "%"@ + input.skip(1) + "%"@
    } else {
        input
    }
}

/// `${VAR}` or `$VAR` rewritten to `$env:VAR` for PowerShell. A
/// `${VAR:-default}` form is not rewritten, and neither is anything else.
pub open spec fn powershell_variable(input: Seq<char>) -> Seq<char> {
    if "${"@.is_prefix_of(input) {
        if !input.skip(2).contains(':') {
            "$env:"@ + input.subrange(2, input.len() - 1)
        } else {
            input
        }
    } else if "$"@.is_prefix_of(input) {
        "$env:"@ + input.skip(1)
    } else {
        input
    }
}

/// Rewrite an environment-variable reference for `cmd`.
pub fn to_cmd_variable(input: String) -> (r: String)
    requires
        input@ != "${"@,
    ensures
        r@ == cmd_variable(input@),
{
    if str_starts_with(input.as_str(), "${") {
        let len = input.as_str().unicode_len();
        proof {
            reveal_strlit("${");
            if len == 2 {
                assert(input@ =~= "${"@);
            }
        }
        let inner = input.as_str().substring_char(2, len);
        proof {
            assert(inner@ =~= input@.skip(2));
        }
        if !str_contains_char(inner, ':') {
            let kept = input.as_str().substring_char(2, len - 1);
            let mut r = String::from_str("%");
            r.append(kept);
            r.append("%");
            proof {
                assert(r@ =~= "%"@ + input@.subrange(2, input@.len() - 1) + "%"@);
            }
            r
        } else {
            input
        }
    } else if str_starts_with(input.as_str(), "$") {
        let len = input.as_str().unicode_len();
        proof {
            reveal_strlit("$");
        }
        let rest = input.as_str().substring_char(1, len);
        let mut r = String::from_str("%");
        r.append(rest);
        r.append("%");
        proof {
            assert(rest@ =~= input@.skip(1));
            assert(r@ =~= "%"@ + input@.skip(1) + "%"@);
        }
        r
    } else {
        input
    }
}

/// Rewrite an environment-variable reference for PowerShell.
pub fn to_powershell_variable(input: String) -> (r: String)
    requires
        input@ != "${"@,
    ensures
        r@ == powershell_variable(input@),
{
    if str_starts_with(input.as_str(), "${") {
        let len = input.as_str().unicode_len();
        proof {
            reveal_strlit("${");
            if len == 2 {
                assert(input@ =~= "${"@);
            }
        }
        let inner = input.as_str().substring_char(2, len);
        proof {
            assert(inner@ =~= input@.skip(2));
        }
        if !str_contains_char(inner, ':') {
            let kept = input.as_str().substring_char(2, len - 1);
            let mut r = String::from_str("$env:");
            r.append(kept);
            proof {
                assert(r@ =~= "$env:"@ + input@.subrange(2, input@.len() - 1));
            }
            r
        } else {
            input
        }
    } else if str_starts_with(input.as_str(), "$") {
        let len = input.as_str().unicode_len();
        proof {
            reveal_strlit("$");
        }
        let rest = input.as_str().substring_char(1, len);
        let mut r = String::from_str("$env:");
        r.append(rest);
        proof {
            assert(rest@ =~= input@.skip(1));
            assert(r@ =~= "$env:"@ + input@.skip(1));
        }
        r
    } else {
        input
    }
}

/// An environment-variable reference rewritten for the given shell flavour;
/// shells of unknown flavour get the input unchanged.
pub open spec fn shell_variable(shell_type: WindowsShellType, input: Seq<char>) -> Seq<char> {
    match shell_type {
        WindowsShellType::Powershell => powershell_variable(input),
        WindowsShellType::Cmd => cmd_variable(input),
        WindowsShellType::Other => input,
    }
}

/// Rewrite an environment-variable reference for the given shell flavour.
pub fn to_windows_shell_variable(shell_type: WindowsShellType, input: String) -> (r: String)
    requires
        shell_type != WindowsShellType::Other ==> input@ != "${"@,
    ensures
        r@ == shell_variable(shell_type, input@),
{
    match shell_type {
        WindowsShellType::Powershell => to_powershell_variable(input),
        WindowsShellType::Cmd => to_cmd_variable(input),
        WindowsShellType::Other => input,
    }
}

/// The shell a task spawn picks, with the arguments the user configured for
/// it: the system shell (on remote hosts a `"${SHELL:-sh}"` fallback that
/// the remote side expands), a named program, or a program with arguments.
/// `None` when the system shell is wanted but cannot be found.
pub open spec fn picked_shell(
    os: HostOs,
    is_local: bool,
    env_shell: Option<String>,
    shell: Shell,
) -> Option<(Seq<char>, Seq<Seq<char>>)> {
    match shell {
        Shell::System => {
            if is_local {
                match system_shell(os, env_shell) {
                    Some(s) => Some((s, Seq::empty())),
                    None => None,
                }
            } else {
                Some(("\"${SHELL:-sh}\""@, Seq::empty()))
            }
        },
        Shell::Program(p) => Some((p@, Seq::empty())),
        Shell::WithArguments { program, args } => Some((program@, args.deep_view())),
    }
}

/// The command label once wrapped in the shell invocation that runs it.
pub open spec fn wrapped_command_label(os: HostOs, shell: Seq<char>, label: Seq<char>) -> Seq<
    char,
> {
    match os {
        HostOs::Unix => shell + " -i -c '"@ + label + "'"@,
        HostOs::Windows => match windows_shell_type(shell) {
            WindowsShellType::Powershell => shell + " -C '"@ + label + "'"@,
            WindowsShellType::Cmd => shell + " /C '"@ + label + "'"@,
            WindowsShellType::Other => shell + " -i -c '"@ + label + "'"@,
        },
    }
}

/// The task's command and arguments folded into one shell word: arguments
/// are appended separated by spaces, each first rewritten for the shell's
/// flavour on Windows.
pub open spec fn combined_command(
    os: HostOs,
    shell: Seq<char>,
    command: Seq<char>,
    args: Seq<Seq<char>>,
) -> Seq<char>
    decreases args.len(),
{
    if args.len() == 0 {
        command
    } else {
        let arg = match os {
            HostOs::Unix => args[0],
            HostOs::Windows => shell_variable(windows_shell_type(shell), args[0]),
        };
        combined_command(os, shell, command + " "@ + arg, args.drop_first())
    }
}

/// The final argument list of the shell: the user's own arguments, then the
/// flags that make the shell run one command, then the combined command.
pub open spec fn shell_invocation_args(
    os: HostOs,
    shell: Seq<char>,
    user_args: Seq<Seq<char>>,
    combined: Seq<char>,
) -> Seq<Seq<char>> {
    match os {
        HostOs::Unix => user_args + seq!["-i"@, "-c"@, combined],
        HostOs::Windows => match windows_shell_type(shell) {
            WindowsShellType::Powershell => user_args + seq!["-C"@, combined],
            WindowsShellType::Cmd => user_args + seq!["/C"@, combined],
            WindowsShellType::Other => user_args + seq!["-i"@, "-c"@, combined],
        },
    }
}

impl TerminalPanel {
    /// Rewrite `spawn_task` so that its command runs inside the picked
    /// shell: the shell becomes the command, the command label is wrapped in
    /// the shell invocation, and the task's command and arguments are folded
    /// into the shell's argument list. Returns `Break` — with `spawn_task`
    /// untouched — exactly when no shell can be found. `env_shell` is the
    /// value of the `SHELL` environment variable, if set.
    pub fn fill_command(
        os: HostOs,
        is_local: bool,
        env_shell: Option<String>,
        spawn_in_terminal: &SpawnInTerminal,
        spawn_task: &mut SpawnInTerminal,
    ) -> (r: ControlFlow<()>)
        requires
            os == HostOs::Windows ==> match picked_shell(
                os,
                is_local,
                env_shell,
                spawn_in_terminal.shell,
            ) {
                Some(pair) => windows_shell_type(pair.0) == WindowsShellType::Other || forall|
                    i: int,
                |
                    0 <= i < old(spawn_task).args@.len() ==> (#[trigger] old(
                        spawn_task,
                    ).args@[i])@ != "${"@,
                None => true,
            },
        ensures
            match picked_shell(os, is_local, env_shell, spawn_in_terminal.shell) {
                Some(pair) => {
                    &&& r is Continue
                    &&& final(spawn_task).command@ == pair.0
                    &&& final(spawn_task).command_label@ == wrapped_command_label(
                        os,
                        pair.0,
                        old(spawn_task).command_label@,
                    )
                    &&& final(spawn_task).args.deep_view() == shell_invocation_args(
                        os,
                        pair.0,
                        pair.1,
                        combined_command(
                            os,
                            pair.0,
                            old(spawn_task).command@,
                            old(spawn_task).args.deep_view(),
                        ),
                    )
                    &&& final(spawn_task).id == old(spawn_task).id
                    &&& final(spawn_task).full_label == old(spawn_task).full_label
                    &&& final(spawn_task).use_new_terminal == old(spawn_task).use_new_terminal
                    &&& final(spawn_task).allow_concurrent_runs == old(
                        spawn_task,
                    ).allow_concurrent_runs
                    &&& final(spawn_task).reveal == old(spawn_task).reveal
                    &&& final(spawn_task).reveal_target == old(spawn_task).reveal_target
                    &&& final(spawn_task).shell == old(spawn_task).shell
                },
                None => {
                    &&& r is Break
                    &&& *final(spawn_task) == *old(spawn_task)
                },
            },
    {
        let ghost spec_picked = picked_shell(os, is_local, env_shell, spawn_in_terminal.shell);
        let picked: Option<(String, Vec<String>)> = match &spawn_in_terminal.shell {
            Shell::System => {
                if is_local {
                    match retrieve_system_shell(os, env_shell) {
                        Some(s) => {
                            let no_args: Vec<String> = Vec::new();
                            proof {
                                assert(no_args.deep_view() =~= Seq::<Seq<char>>::empty());
                            }
                            Some((s, no_args))
                        },
                        None => None,
                    }
                } else {
                    let no_args: Vec<String> = Vec::new();
                    proof {
                        assert(no_args.deep_view() =~= Seq::<Seq<char>>::empty());
                    }
                    Some((String::from_str("\"${SHELL:-sh}\""), no_args))
                }
            },
            Shell::Program(p) => {
                let no_args: Vec<String> = Vec::new();
                proof {
                    assert(no_args.deep_view() =~= Seq::<Seq<char>>::empty());
                }
                Some((p.clone(), no_args))
            },
            Shell::WithArguments { program, args } => Some((program.clone(), clone_string_vec(args))),
        };
        let (shell, mut user_args) = match picked {
            Some(p) => p,
            None => {
                proof {
                    assert(spec_picked is None);
                }
                return ControlFlow::Break(());
            },
        };
        proof {
            assert(spec_picked matches Some(pair) && pair.0 == shell@ && pair.1
                == user_args.deep_view());
        }
        let ghost gshell: Seq<char> = shell@;
        let shell_type = to_windows_shell_type(shell.as_str());

        // Wrap the command label in the shell invocation.
        let mid: &str = match os {
            HostOs::Unix => " -i -c '",
            HostOs::Windows => match shell_type {
                WindowsShellType::Powershell => " -C '",
                WindowsShellType::Cmd => " /C '",
                WindowsShellType::Other => " -i -c '",
            },
        };
        let mut label = shell.clone();
        label.append(mid);
        label.append(spawn_task.command_label.as_str());
        label.append("'");
        proof {
            assert(label@ =~= wrapped_command_label(os, gshell, spawn_task.command_label@));
        }
        spawn_task.command_label = label;

        // The shell becomes the command; the task's command and arguments
        // are folded into one shell word.
        let task_args = clone_string_vec(&spawn_task.args);
        let ghost gargs: Seq<Seq<char>> = task_args.deep_view();
        let mut combined = spawn_task.command.clone();
        spawn_task.command = shell;
        let ghost gcommand: Seq<char> = combined@;
        proof {
            assert(gargs.skip(0) =~= gargs);
        }
        let mut idx: usize = 0;
        while idx < task_args.len()
            invariant
                idx <= task_args@.len(),
                gargs == task_args.deep_view(),
                gargs.len() == task_args@.len(),
                shell_type == windows_shell_type(gshell),
                combined_command(os, gshell, combined@, gargs.skip(idx as int)) == combined_command(
                    os,
                    gshell,
                    gcommand,
                    gargs,
                ),
                os == HostOs::Windows && shell_type != WindowsShellType::Other ==> forall|i: int|
                    idx <= i < gargs.len() ==> (#[trigger] gargs[i]) != "${"@,
            decreases task_args@.len() - idx,
        {
            let arg = task_args[idx].clone();
            proof {
                assert(task_args.deep_view()[idx as int] == task_args@[idx as int]@);
            }
            let converted = match os {
                HostOs::Unix => arg,
                HostOs::Windows => to_windows_shell_variable(shell_type, arg),
            };
            let ghost before = combined@;
            combined.append(" ");
            combined.append(converted.as_str());
            proof {
                let rest = gargs.skip(idx as int);
                assert(rest.drop_first() =~= gargs.skip(idx as int + 1));
                assert(rest[0] == gargs[idx as int]);
                let spec_arg = match os {
                    HostOs::Unix => rest[0],
                    HostOs::Windows => shell_variable(windows_shell_type(gshell), rest[0]),
                };
                assert(combined@ =~= before + " "@ + spec_arg);
                assert(combined_command(os, gshell, before, rest) == combined_command(
                    os,
                    gshell,
                    before + " "@ + spec_arg,
                    rest.drop_first(),
                ));
            }
            idx = idx + 1;
        }
        proof {
            assert(gargs.skip(gargs.len() as int) =~= Seq::<Seq<char>>::empty());
            assert(combined@ == combined_command(os, gshell, gcommand, gargs));
        }

        // The shell's own flags, then the combined command.
        let ghost user_args_before = user_args.deep_view();
        match os {
            HostOs::Unix => {
                user_args.push(String::from_str("-i"));
                user_args.push(String::from_str("-c"));
                user_args.push(combined);
            },
            HostOs::Windows => {
                match shell_type {
                    WindowsShellType::Powershell => {
                        user_args.push(String::from_str("-C"));
                        user_args.push(combined);
                    },
                    WindowsShellType::Cmd => {
                        user_args.push(String::from_str("/C"));
                        user_args.push(combined);
                    },
                    WindowsShellType::Other => {
                        user_args.push(String::from_str("-i"));
                        user_args.push(String::from_str("-c"));
                        user_args.push(combined);
                    },
                }
            },
        }
        proof {
            assert(user_args.deep_view() =~= shell_invocation_args(
                os,
                gshell,
                user_args_before,
                combined_command(os, gshell, gcommand, gargs),
            ));
        }
        spawn_task.args = user_args;
        ControlFlow::Continue(())
    }
}

} // verus!
