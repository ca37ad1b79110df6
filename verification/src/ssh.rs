//! The `ssh` and `scp` command lines, and what their results mean.
//!
//! The client builds each command line and reads each result; running the
//! programs is its caller's part.

use crate::models::Server;
use crate::process::{texts, Captured, CommandLine, Exit};
use crate::text::{decimal, decimal_text};
use vstd::prelude::*;
use vstd::string::*;

verus! {

/// What to tell the user, and what to run.
#[derive(Debug)]
pub struct SshPlan {
    /// Lines to show before the command runs, in order.
    pub notices: Vec<String>,
    pub command: CommandLine,
}

/// Which of the two programs is meant.
#[derive(Debug, Clone, Copy, PartialEq, Eq, Structural)]
pub enum Tool {
    Ssh,
    Scp,
}

/// Why an SSH operation failed.
#[derive(Debug)]
pub enum SshError {
    /// `ssh` could not be started for a session.
    ConnectNotRun,
    /// The session ended with this exit code, -1 if it had none.
    ConnectionFailed { code: i32 },
    /// `ssh` could not be started for the connection test.
    TestNotRun,
    /// The connection test failed with this error output.
    TestFailed { stderr: String },
    /// `ssh` could not be started for the remote command.
    RemoteNotRun,
    /// The remote command failed with this error output.
    RemoteFailed { stderr: String },
    /// `scp` could not be started.
    CopyNotRun,
    /// The copy ended with this exit code, -1 if it had none.
    CopyFailed { code: i32 },
    /// The program is not on this machine.
    ToolMissing(Tool),
    /// The program is there and does not work.
    ToolBroken(Tool),
}

impl SshError {
    /// The text of [`SshError::message`].
    pub open spec fn message_text(self) -> Seq<char> {
        match self {
            SshError::ConnectNotRun => "Failed to execute SSH command"@,
            SshError::ConnectionFailed { code } => "SSH connection failed with exit code: "@
                + decimal_text(code as int),
            SshError::TestNotRun => "Failed to execute SSH test command"@,
            SshError::TestFailed { stderr } => "Connection test failed: "@ + stderr@,
            SshError::RemoteNotRun => "Failed to execute remote command"@,
            SshError::RemoteFailed { stderr } => "Remote command failed: "@ + stderr@,
            SshError::CopyNotRun => "Failed to execute SCP command"@,
            SshError::CopyFailed { code } => "SCP failed with exit code: "@ + decimal_text(
                code as int,
            ),
            SshError::ToolMissing(Tool::Ssh) => "SSH command not found. Please install OpenSSH client."@,
            SshError::ToolMissing(Tool::Scp) => "SCP command not found. Please install OpenSSH client."@,
            SshError::ToolBroken(Tool::Ssh) => "SSH is not properly installed"@,
            SshError::ToolBroken(Tool::Scp) => "SCP is not properly installed"@,
        }
    }

    /// One human-readable line for this error.
    pub fn message(&self) -> (text: String)
        ensures
            text@ == self.message_text(),
    {
        match self {
            SshError::ConnectNotRun => "Failed to execute SSH command".to_string(),
            SshError::ConnectionFailed { code } => {
                let mut text = "SSH connection failed with exit code: ".to_string();
                text.append(decimal(*code).as_str());
                text
            },
            SshError::TestNotRun => "Failed to execute SSH test command".to_string(),
            SshError::TestFailed { stderr } => {
                let mut text = "Connection test failed: ".to_string();
                text.append(stderr.as_str());
                text
            },
            SshError::RemoteNotRun => "Failed to execute remote command".to_string(),
            SshError::RemoteFailed { stderr } => {
                let mut text = "Remote command failed: ".to_string();
                text.append(stderr.as_str());
                text
            },
            SshError::CopyNotRun => "Failed to execute SCP command".to_string(),
            SshError::CopyFailed { code } => {
                let mut text = "SCP failed with exit code: ".to_string();
                text.append(decimal(*code).as_str());
                text
            },
            SshError::ToolMissing(Tool::Ssh) => "SSH command not found. Please install OpenSSH client.".to_string(),
            SshError::ToolMissing(Tool::Scp) => "SCP command not found. Please install OpenSSH client.".to_string(),
            SshError::ToolBroken(Tool::Ssh) => "SSH is not properly installed".to_string(),
            SshError::ToolBroken(Tool::Scp) => "SCP is not properly installed".to_string(),
        }
    }
}

/// What the user is told when a session has ended well.
pub const CONNECT_SUCCESS: &'static str = "SSH connection closed successfully";

/// What the user is told when the connection test has passed.
pub const TEST_SUCCESS: &'static str = "Connection test successful";

/// What the user is told when a copy has ended well.
pub const COPY_SUCCESS: &'static str = "File copied successfully";

/// Builds `ssh` and `scp` command lines and reads their results.
#[derive(Debug)]
pub struct SshClient;

impl Default for SshClient {
    fn default() -> (client: Self) {
        SshClient::new()
    }
}

impl SshClient {
    pub fn new() -> (client: Self) {
        SshClient
    }

    /// The plan for an interactive session on the server.
    pub fn connect_command(&self, server: &Server) -> (plan: SshPlan)
        ensures
            texts(plan.notices@) == seq![
                "Connecting to "@ + server.display_text() + "..."@,
                "Running: "@ + server.ssh_command_text(),
            ],
            plan.command.program@ == "ssh"@,
            texts(plan.command.args@) == seq![
                server.target_text(),
                "-o"@,
                "StrictHostKeyChecking=ask"@,
                "-o"@,
                "UserKnownHostsFile=~/.ssh/known_hosts"@,
            ],
    {
        let mut connecting = "Connecting to ".to_string();
        connecting.append(server.display().as_str());
        connecting.append("...");
        let mut running = "Running: ".to_string();
        running.append(server.ssh_command().as_str());
        let mut notices: Vec<String> = Vec::new();
        notices.push(connecting);
        notices.push(running);
        let mut args: Vec<String> = Vec::new();
        args.push(server.target());
        args.push("-o".to_string());
        args.push("StrictHostKeyChecking=ask".to_string());
        args.push("-o".to_string());
        args.push("UserKnownHostsFile=~/.ssh/known_hosts".to_string());
        proof {
            assert(texts(notices@) =~= seq![
                "Connecting to "@ + server.display_text() + "..."@,
                "Running: "@ + server.ssh_command_text(),
            ]);
            assert(texts(args@) =~= seq![
                server.target_text(),
                "-o"@,
                "StrictHostKeyChecking=ask"@,
                "-o"@,
                "UserKnownHostsFile=~/.ssh/known_hosts"@,
            ]);
        }
        SshPlan { notices, command: CommandLine { program: "ssh".to_string(), args } }
    }

    /// What the end of a session means: success only for a successful exit.
    pub fn connect(&self, exit: Exit) -> (result: Result<(), SshError>)
        ensures
            match exit {
                Exit::NotRun => result matches Err(SshError::ConnectNotRun),
                Exit::Exited { success, code } => if success {
                    result is Ok
                } else {
                    result matches Err(SshError::ConnectionFailed { code: shown }) && shown == (
                    match code {
                        Some(c) => c,
                        None => -1i32,
                    })
                },
            },
    {
        match exit {
            Exit::NotRun => Err(SshError::ConnectNotRun),
            Exit::Exited { success, code } => {
                if success {
                    Ok(())
                } else {
                    let shown: i32 = match code {
                        Some(c) => c,
                        None => -1,
                    };
                    Err(SshError::ConnectionFailed { code: shown })
                }
            },
        }
    }

    /// The plan for a connection test: a ten-second connection attempt
    /// that runs one `echo` on the server.
    pub fn test_connection_command(&self, server: &Server) -> (plan: SshPlan)
        ensures
            texts(plan.notices@) == seq!["Testing connection to "@ + server.display_text() + "..."@],
            plan.command.program@ == "ssh"@,
            texts(plan.command.args@) == seq![
                server.target_text(),
                "-o"@,
                "ConnectTimeout=10"@,
                "-o"@,
                "StrictHostKeyChecking=no"@,
                "-o"@,
                "UserKnownHostsFile=/dev/null"@,
                "-o"@,
                "LogLevel=ERROR"@,
                "echo 'Connection test successful'"@,
            ],
    {
        let mut testing = "Testing connection to ".to_string();
        testing.append(server.display().as_str());
        testing.append("...");
        let mut notices: Vec<String> = Vec::new();
        notices.push(testing);
        let mut args: Vec<String> = Vec::new();
        args.push(server.target());
        args.push("-o".to_string());
        args.push("ConnectTimeout=10".to_string());
        args.push("-o".to_string());
        args.push("StrictHostKeyChecking=no".to_string());
        args.push("-o".to_string());
        args.push("UserKnownHostsFile=/dev/null".to_string());
        args.push("-o".to_string());
        args.push("LogLevel=ERROR".to_string());
        args.push("echo 'Connection test successful'".to_string());
        proof {
            assert(texts(notices@) =~= seq![
                "Testing connection to "@ + server.display_text() + "..."@,
            ]);
            assert(texts(args@) =~= seq![
                server.target_text(),
                "-o"@,
                "ConnectTimeout=10"@,
                "-o"@,
                "StrictHostKeyChecking=no"@,
                "-o"@,
                "UserKnownHostsFile=/dev/null"@,
                "-o"@,
                "LogLevel=ERROR"@,
                "echo 'Connection test successful'"@,
            ]);
        }
        SshPlan { notices, command: CommandLine { program: "ssh".to_string(), args } }
    }

    /// What the end of a connection test means: the test has passed only
    /// if `ssh` exited successfully; otherwise its error output is the
    /// reason.
    pub fn test_connection(&self, run: Captured) -> (result: Result<(), SshError>)
        ensures
            match run {
                Captured::NotRun => result matches Err(SshError::TestNotRun),
                Captured::Exited { success, stdout, stderr } => if success {
                    result is Ok
                } else {
                    result matches Err(SshError::TestFailed { stderr: reason }) && reason == stderr
                },
            },
    {
        match run {
            Captured::NotRun => Err(SshError::TestNotRun),
            Captured::Exited { success, stdout, stderr } => {
                if success {
                    Ok(())
                } else {
                    Err(SshError::TestFailed { stderr })
                }
            },
        }
    }

    /// The plan for running one command on the server.
    pub fn execute_command_line(&self, server: &Server, command: &str) -> (plan: SshPlan)
        ensures
            texts(plan.notices@) == seq![
                "Executing command on "@ + server.display_text() + ": "@ + command@,
            ],
            plan.command.program@ == "ssh"@,
            texts(plan.command.args@) == seq![
                server.target_text(),
                "-o"@,
                "StrictHostKeyChecking=no"@,
                "-o"@,
                "UserKnownHostsFile=/dev/null"@,
                "-o"@,
                "LogLevel=ERROR"@,
                command@,
            ],
    {
        let mut executing = "Executing command on ".to_string();
        executing.append(server.display().as_str());
        executing.append(": ");
        executing.append(command);
        let mut notices: Vec<String> = Vec::new();
        notices.push(executing);
        let mut args: Vec<String> = Vec::new();
        args.push(server.target());
        args.push("-o".to_string());
        args.push("StrictHostKeyChecking=no".to_string());
        args.push("-o".to_string());
        args.push("UserKnownHostsFile=/dev/null".to_string());
        args.push("-o".to_string());
        args.push("LogLevel=ERROR".to_string());
        args.push(command.to_string());
        proof {
            assert(texts(notices@) =~= seq![
                "Executing command on "@ + server.display_text() + ": "@ + command@,
            ]);
            assert(texts(args@) =~= seq![
                server.target_text(),
                "-o"@,
                "StrictHostKeyChecking=no"@,
                "-o"@,
                "UserKnownHostsFile=/dev/null"@,
                "-o"@,
                "LogLevel=ERROR"@,
                command@,
            ]);
        }
        SshPlan { notices, command: CommandLine { program: "ssh".to_string(), args } }
    }

    /// What the end of a remote command means: its output if `ssh` exited
    /// successfully, otherwise its error output as the reason.
    pub fn execute_command(&self, run: Captured) -> (result: Result<String, SshError>)
        ensures
            match run {
                Captured::NotRun => result matches Err(SshError::RemoteNotRun),
                Captured::Exited { success, stdout, stderr } => if success {
                    result matches Ok(output) && output == stdout
                } else {
                    result matches Err(SshError::RemoteFailed { stderr: reason }) && reason
                        == stderr
                },
            },
    {
        match run {
            Captured::NotRun => Err(SshError::RemoteNotRun),
            Captured::Exited { success, stdout, stderr } => {
                if success {
                    Ok(stdout)
                } else {
                    Err(SshError::RemoteFailed { stderr })
                }
            },
        }
    }

    /// The plan for copying a local file to the server.
    pub fn copy_file_command(&self, server: &Server, local_path: &str, remote_path: &str) -> (plan:
        SshPlan)
        ensures
            texts(plan.notices@) == seq![
                "Copying "@ + local_path@ + " to "@ + server.display_text() + ":"@ + remote_path@,
            ],
            plan.command.program@ == "scp"@,
            texts(plan.command.args@) == seq![
                "-o"@,
                "StrictHostKeyChecking=no"@,
                "-o"@,
                "UserKnownHostsFile=/dev/null"@,
                local_path@,
                server.target_text() + ":"@ + remote_path@,
            ],
    {
        let mut copying = "Copying ".to_string();
        copying.append(local_path);
        copying.append(" to ");
        copying.append(server.display().as_str());
        copying.append(":");
        copying.append(remote_path);
        let mut notices: Vec<String> = Vec::new();
        notices.push(copying);
        let mut remote = server.target();
        remote.append(":");
        remote.append(remote_path);
        let mut args: Vec<String> = Vec::new();
        args.push("-o".to_string());
        args.push("StrictHostKeyChecking=no".to_string());
        args.push("-o".to_string());
        args.push("UserKnownHostsFile=/dev/null".to_string());
        args.push(local_path.to_string());
        args.push(remote);
        proof {
            assert(texts(notices@) =~= seq![
                "Copying "@ + local_path@ + " to "@ + server.display_text() + ":"@ + remote_path@,
            ]);
            assert(texts(args@) =~= seq![
                "-o"@,
                "StrictHostKeyChecking=no"@,
                "-o"@,
                "UserKnownHostsFile=/dev/null"@,
                local_path@,
                server.target_text() + ":"@ + remote_path@,
            ]);
        }
        SshPlan { notices, command: CommandLine { program: "scp".to_string(), args } }
    }

    /// The plan for copying a file on the server to this machine.
    pub fn copy_file_from_command(&self, server: &Server, remote_path: &str, local_path: &str) -> (plan:
        SshPlan)
        ensures
            texts(plan.notices@) == seq![
                "Copying "@ + server.display_text() + ":"@ + remote_path@ + " to "@ + local_path@,
            ],
            plan.command.program@ == "scp"@,
            texts(plan.command.args@) == seq![
                "-o"@,
                "StrictHostKeyChecking=no"@,
                "-o"@,
                "UserKnownHostsFile=/dev/null"@,
                server.target_text() + ":"@ + remote_path@,
                local_path@,
            ],
    {
        let mut copying = "Copying ".to_string();
        copying.append(server.display().as_str());
        copying.append(":");
        copying.append(remote_path);
        copying.append(" to ");
        copying.append(local_path);
        let mut notices: Vec<String> = Vec::new();
        notices.push(copying);
        let mut remote = server.target();
        remote.append(":");
        remote.append(remote_path);
        let mut args: Vec<String> = Vec::new();
        args.push("-o".to_string());
        args.push("StrictHostKeyChecking=no".to_string());
        args.push("-o".to_string());
        args.push("UserKnownHostsFile=/dev/null".to_string());
        args.push(remote);
        args.push(local_path.to_string());
        proof {
            assert(texts(notices@) =~= seq![
                "Copying "@ + server.display_text() + ":"@ + remote_path@ + " to "@ + local_path@,
            ]);
            assert(texts(args@) =~= seq![
                "-o"@,
                "StrictHostKeyChecking=no"@,
                "-o"@,
                "UserKnownHostsFile=/dev/null"@,
                server.target_text() + ":"@ + remote_path@,
                local_path@,
            ]);
        }
        SshPlan { notices, command: CommandLine { program: "scp".to_string(), args } }
    }

    /// What the end of a copy to the server means: success only for a
    /// successful exit.
    pub fn copy_file(&self, exit: Exit) -> (result: Result<(), SshError>)
        ensures
            result is Ok <==> exit matches Exit::Exited { success: true, .. },
            result matches Err(error) ==> error == copy_failure(exit),
    {
        copy_outcome(exit)
    }

    /// What the end of a copy from the server means: success only for a
    /// successful exit.
    pub fn copy_file_from(&self, exit: Exit) -> (result: Result<(), SshError>)
        ensures
            result is Ok <==> exit matches Exit::Exited { success: true, .. },
            result matches Err(error) ==> error == copy_failure(exit),
    {
        copy_outcome(exit)
    }

    /// The command line that asks a tool whether it is there: `ssh -V`,
    /// `scp -h`.
    pub fn availability_command(&self, tool: Tool) -> (command: CommandLine)
        ensures
            command.program@ == (match tool {
                Tool::Ssh => "ssh"@,
                Tool::Scp => "scp"@,
            }),
            texts(command.args@) == seq![
                match tool {
                    Tool::Ssh => "-V"@,
                    Tool::Scp => "-h"@,
                },
            ],
    {
        let mut args: Vec<String> = Vec::new();
        match tool {
            Tool::Ssh => {
                args.push("-V".to_string());
                proof {
                    assert(texts(args@) =~= seq!["-V"@]);
                }
                CommandLine { program: "ssh".to_string(), args }
            },
            Tool::Scp => {
                args.push("-h".to_string());
                proof {
                    assert(texts(args@) =~= seq!["-h"@]);
                }
                CommandLine { program: "scp".to_string(), args }
            },
        }
    }

    /// Whether a tool is available, from how its availability command
    /// ended: it is missing if it could not be started, and broken if it
    /// did not exit successfully.
    pub fn check_ssh_available(&self, tool: Tool, run: Captured) -> (result: Result<(), SshError>)
        ensures
            match run {
                Captured::NotRun => result matches Err(SshError::ToolMissing(t)) && t == tool,
                Captured::Exited { success, .. } => if success {
                    result is Ok
                } else {
                    result matches Err(SshError::ToolBroken(t)) && t == tool
                },
            },
    {
        match run {
            Captured::NotRun => Err(SshError::ToolMissing(tool)),
            Captured::Exited { success, stdout, stderr } => {
                if success {
                    Ok(())
                } else {
                    Err(SshError::ToolBroken(tool))
                }
            },
        }
    }
}

/// The error of a copy that did not end well: the exit code is -1 where
/// the program had none.
pub open spec fn copy_failure(exit: Exit) -> SshError {
    match exit {
        Exit::NotRun => SshError::CopyNotRun,
        Exit::Exited { code, .. } => SshError::CopyFailed {
            code: match code {
                Some(c) => c,
                None => -1i32,
            },
        },
    }
}

fn copy_outcome(exit: Exit) -> (result: Result<(), SshError>)
    ensures
        result is Ok <==> exit matches Exit::Exited { success: true, .. },
        result matches Err(error) ==> error == copy_failure(exit),
{
    match exit {
        Exit::NotRun => Err(SshError::CopyNotRun),
        Exit::Exited { success, code } => {
            if success {
                Ok(())
            } else {
                let shown: i32 = match code {
                    Some(c) => c,
                    None => -1,
                };
                Err(SshError::CopyFailed { code: shown })
            }
        },
    }
}

} // verus!
