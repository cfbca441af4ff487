use git_tui::process::{into_outcome, launch_failure, CommandResult, WorkflowError};

#[test]
fn success_trims_stdout() {
    let r = CommandResult {
        exit_success: true,
        stdout: "  fix: correct null check\n".to_string(),
        stderr: "warning\n".to_string(),
    };
    assert_eq!(into_outcome(r), Ok("fix: correct null check".to_string()));
}

#[test]
fn success_with_blank_output_is_empty() {
    let r = CommandResult { exit_success: true, stdout: "\n\t \n".to_string(), stderr: String::new() };
    assert_eq!(into_outcome(r), Ok(String::new()));
}

#[test]
fn failure_keeps_stderr_verbatim() {
    let r = CommandResult {
        exit_success: false,
        stdout: "ignored".to_string(),
        stderr: "  fatal: not a git repository\n".to_string(),
    };
    assert_eq!(
        into_outcome(r),
        Err(WorkflowError::CommandFailure("  fatal: not a git repository\n".to_string()))
    );
}

#[test]
fn launch_failure_is_execution_error() {
    assert_eq!(
        launch_failure("No such file or directory".to_string()),
        WorkflowError::ExecutionError("No such file or directory".to_string())
    );
}
