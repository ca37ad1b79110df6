use hop::models::Server;
use hop::process::{Captured, Exit};
use hop::ssh::{SshClient, SshError, Tool, CONNECT_SUCCESS, COPY_SUCCESS, TEST_SUCCESS};

fn server() -> Server {
    Server::new("web".to_string(), "deploy".to_string(), "10.0.0.5".to_string())
}

fn ran(success: bool, stdout: &str, stderr: &str) -> Captured {
    Captured::Exited { success, stdout: stdout.to_string(), stderr: stderr.to_string() }
}

#[test]
fn test_ssh_client_creation() {
    let client = SshClient::new();
    // Basic test to ensure the client can be created
    let _ = client;
    assert!(true);
}

#[test]
fn test_check_ssh_available() {
    let client = SshClient::new();
    match client.check_ssh_available(Tool::Ssh, ran(true, "", "OpenSSH_9.6")) {
        Ok(_) => assert!(true),
        Err(_) => {
            println!("SSH not available in test environment");
            assert!(true);
        }
    }
}

#[test]
fn availability_of_the_tools() {
    let client = SshClient::default();
    let command = client.availability_command(Tool::Ssh);
    assert_eq!(command.program, "ssh");
    assert_eq!(command.args, vec!["-V"]);
    let command = client.availability_command(Tool::Scp);
    assert_eq!(command.program, "scp");
    assert_eq!(command.args, vec!["-h"]);

    assert!(client.check_ssh_available(Tool::Ssh, ran(true, "", "")).is_ok());
    assert!(client.check_ssh_available(Tool::Scp, ran(true, "", "")).is_ok());
    let error = client.check_ssh_available(Tool::Ssh, Captured::NotRun).unwrap_err();
    assert!(matches!(error, SshError::ToolMissing(Tool::Ssh)));
    assert_eq!(error.message(), "SSH command not found. Please install OpenSSH client.");
    let error = client.check_ssh_available(Tool::Scp, Captured::NotRun).unwrap_err();
    assert_eq!(error.message(), "SCP command not found. Please install OpenSSH client.");
    let error = client.check_ssh_available(Tool::Ssh, ran(false, "", "")).unwrap_err();
    assert_eq!(error.message(), "SSH is not properly installed");
    let error = client.check_ssh_available(Tool::Scp, ran(false, "", "")).unwrap_err();
    assert!(matches!(error, SshError::ToolBroken(Tool::Scp)));
    assert_eq!(error.message(), "SCP is not properly installed");
}

#[test]
fn connect_plan_and_result() {
    let client = SshClient::new();
    let plan = client.connect_command(&server());
    assert_eq!(
        plan.notices,
        vec!["Connecting to web -> deploy@10.0.0.5...", "Running: ssh deploy@10.0.0.5"]
    );
    assert_eq!(plan.command.program, "ssh");
    assert_eq!(
        plan.command.args,
        vec![
            "deploy@10.0.0.5",
            "-o",
            "StrictHostKeyChecking=ask",
            "-o",
            "UserKnownHostsFile=~/.ssh/known_hosts"
        ]
    );
    assert!(client.connect(Exit::Exited { success: true, code: Some(0) }).is_ok());
    let error = client.connect(Exit::Exited { success: false, code: Some(255) }).unwrap_err();
    assert!(matches!(error, SshError::ConnectionFailed { code: 255 }));
    assert_eq!(error.message(), "SSH connection failed with exit code: 255");
    let error = client.connect(Exit::Exited { success: false, code: None }).unwrap_err();
    assert_eq!(error.message(), "SSH connection failed with exit code: -1");
    let error = client.connect(Exit::NotRun).unwrap_err();
    assert_eq!(error.message(), "Failed to execute SSH command");
    assert_eq!(CONNECT_SUCCESS, "SSH connection closed successfully");
}

#[test]
fn connection_test_plan_and_result() {
    let client = SshClient::new();
    let plan = client.test_connection_command(&server());
    assert_eq!(plan.notices, vec!["Testing connection to web -> deploy@10.0.0.5..."]);
    assert_eq!(plan.command.program, "ssh");
    assert_eq!(
        plan.command.args,
        vec![
            "deploy@10.0.0.5",
            "-o",
            "ConnectTimeout=10",
            "-o",
            "StrictHostKeyChecking=no",
            "-o",
            "UserKnownHostsFile=/dev/null",
            "-o",
            "LogLevel=ERROR",
            "echo 'Connection test successful'"
        ]
    );
    assert!(client.test_connection(ran(true, "Connection test successful\n", "")).is_ok());
    let error = client.test_connection(ran(false, "", "Permission denied")).unwrap_err();
    assert_eq!(error.message(), "Connection test failed: Permission denied");
    let error = client.test_connection(Captured::NotRun).unwrap_err();
    assert_eq!(error.message(), "Failed to execute SSH test command");
    assert_eq!(TEST_SUCCESS, "Connection test successful");
}

#[test]
fn remote_command_plan_and_result() {
    let client = SshClient::new();
    let plan = client.execute_command_line(&server(), "uname -a");
    assert_eq!(plan.notices, vec!["Executing command on web -> deploy@10.0.0.5: uname -a"]);
    assert_eq!(plan.command.program, "ssh");
    assert_eq!(
        plan.command.args,
        vec![
            "deploy@10.0.0.5",
            "-o",
            "StrictHostKeyChecking=no",
            "-o",
            "UserKnownHostsFile=/dev/null",
            "-o",
            "LogLevel=ERROR",
            "uname -a"
        ]
    );
    assert_eq!(client.execute_command(ran(true, "Linux\n", "warn")).unwrap(), "Linux\n");
    let error = client.execute_command(ran(false, "partial", "boom")).unwrap_err();
    assert_eq!(error.message(), "Remote command failed: boom");
    let error = client.execute_command(Captured::NotRun).unwrap_err();
    assert_eq!(error.message(), "Failed to execute remote command");
}

#[test]
fn copy_plans_and_results() {
    let client = SshClient::new();
    let plan = client.copy_file_command(&server(), "a.txt", "/tmp/a.txt");
    assert_eq!(plan.notices, vec!["Copying a.txt to web -> deploy@10.0.0.5:/tmp/a.txt"]);
    assert_eq!(plan.command.program, "scp");
    assert_eq!(
        plan.command.args,
        vec![
            "-o",
            "StrictHostKeyChecking=no",
            "-o",
            "UserKnownHostsFile=/dev/null",
            "a.txt",
            "deploy@10.0.0.5:/tmp/a.txt"
        ]
    );
    let plan = client.copy_file_from_command(&server(), "/tmp/a.txt", "a.txt");
    assert_eq!(plan.notices, vec!["Copying web -> deploy@10.0.0.5:/tmp/a.txt to a.txt"]);
    assert_eq!(
        plan.command.args,
        vec![
            "-o",
            "StrictHostKeyChecking=no",
            "-o",
            "UserKnownHostsFile=/dev/null",
            "deploy@10.0.0.5:/tmp/a.txt",
            "a.txt"
        ]
    );
    assert!(client.copy_file(Exit::Exited { success: true, code: Some(0) }).is_ok());
    assert!(client.copy_file_from(Exit::Exited { success: true, code: None }).is_ok());
    let error = client.copy_file(Exit::Exited { success: false, code: Some(1) }).unwrap_err();
    assert_eq!(error.message(), "SCP failed with exit code: 1");
    let error = client.copy_file_from(Exit::Exited { success: false, code: None }).unwrap_err();
    assert!(matches!(error, SshError::CopyFailed { code: -1 }));
    assert_eq!(error.message(), "SCP failed with exit code: -1");
    let error = client.copy_file(Exit::NotRun).unwrap_err();
    assert_eq!(error.message(), "Failed to execute SCP command");
    assert_eq!(COPY_SUCCESS, "File copied successfully");
}
