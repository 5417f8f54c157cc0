use release_manager::errors::{IoErrorKind, IoFailure, ManagerError};
use release_manager::process::{
    Action, check_command, command_output, CommandLine, CommandOutcome, prefix_lines,
};

fn exited(success: bool, stdout: &str, stderr: &str) -> CommandOutcome {
    CommandOutcome::Exited { success, stdout: stdout.to_string(), stderr: stderr.to_string() }
}

#[test]
fn command_line_is_built_argument_by_argument() {
    let line = CommandLine::new("docker").arg("pull").arg("image:tag");
    assert_eq!(line.program, "docker");
    assert_eq!(line.args, vec!["pull", "image:tag"]);
    assert_eq!(line.display(), "docker pull image:tag");
    assert_eq!(CommandLine::new("ls").display(), "ls");
    assert_eq!(CommandLine::new("echo").arg("").display(), "echo ");
}

#[test]
fn output_of_a_command() {
    assert_eq!(command_output(&exited(true, " out \n", "warn")), Ok(" out \n".to_string()));
    assert_eq!(
        command_output(&exited(false, "out", "it broke")),
        Err(ManagerError::CommandFailed("it broke".to_string()))
    );
    assert_eq!(
        command_output(&CommandOutcome::NotStarted { reason: "not found".to_string() }),
        Err(ManagerError::IoError(IoFailure {
            kind: IoErrorKind::Other,
            message: "not found".to_string()
        }))
    );
}

#[test]
fn failure_of_a_command() {
    assert_eq!(check_command(&exited(true, "", "noise"), "a: ", "b: "), None);
    assert_eq!(
        check_command(&exited(false, "", "noise"), "a: ", "b: "),
        Some(ManagerError::CommandFailed("b: noise".to_string()))
    );
    assert_eq!(
        check_command(&CommandOutcome::NotStarted { reason: "why".to_string() }, "a: ", "b: "),
        Some(ManagerError::CommandFailed("a: why".to_string()))
    );
}

#[test]
fn output_is_shown_behind_a_prefix() {
    assert_eq!(prefix_lines("  ", "a\nb\n"), "  a\n  b");
    assert_eq!(prefix_lines("> ", ""), "");
    assert_eq!(prefix_lines("> ", "one"), "> one");
    assert_eq!(prefix_lines("> ", "\n"), "> ");
}

#[test]
fn final_actions() {
    assert!(Action::Complete(None).is_final());
    assert!(Action::Complete(Some("p".to_string())).is_final());
    assert!(Action::Fail(ManagerError::validation("x")).is_final());
    assert!(!Action::Run(CommandLine::new("ls")).is_final());
    assert!(!Action::PathExists("p".to_string()).is_final());
    assert!(!Action::ReadDir("p".to_string()).is_final());
}
