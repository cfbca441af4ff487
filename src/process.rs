//! What a finished subprocess hands back, and how it becomes a value or an
//! error for the workflow.
use vstd::prelude::*;

verus! {

/// Why a step of the workflow could not go on.
#[derive(Clone, Debug, PartialEq, Eq)]
pub enum WorkflowError {
    /// The command could not be launched at all.
    ExecutionError(String),
    /// The command ran and exited nonzero; its standard error, verbatim.
    CommandFailure(String),
    /// The working tree holds no change at all.
    NoChanges,
    /// Nothing is staged, so there is nothing to describe.
    NoStagedChanges,
    /// The suggestion tool answered with nothing.
    EmptySuggestion,
    /// The user declined at a confirmation gate.
    UserCancelled,
}

/// Exit status and captured streams of a command that ran.
#[derive(Clone, Debug)]
pub struct CommandResult {
    pub exit_success: bool,
    pub stdout: String,
    pub stderr: String,
}

/// What `str::trim` makes of a text.
pub uninterp spec fn trimmed(s: Seq<char>) -> Seq<char>;

/// Relies on `str::trim`: leading and trailing whitespace removed; the
/// result depends on the characters alone.
#[verifier::external_body]
fn trim_text(s: &String) -> (r: String)
    ensures
        r@ == trimmed(s@),
{
    s.trim().to_string()
}

/// The value a command run yields: its standard output without surrounding
/// whitespace on a zero exit, else a failure carrying standard error as it
/// was captured.
pub fn into_outcome(result: CommandResult) -> (r: Result<String, WorkflowError>)
    ensures
        result.exit_success ==> (r matches Ok(out) && out@ == trimmed(result.stdout@)),
        !result.exit_success ==> (r matches Err(WorkflowError::CommandFailure(err))
            && err@ == result.stderr@),
{
    if result.exit_success {
        Ok(trim_text(&result.stdout))
    } else {
        Err(WorkflowError::CommandFailure(result.stderr))
    }
}

/// The failure of a command that could not be launched.
pub fn launch_failure(reason: String) -> (r: WorkflowError)
    ensures
        (r matches WorkflowError::ExecutionError(m) && m@ == reason@),
{
    WorkflowError::ExecutionError(reason)
}

} // verus!
