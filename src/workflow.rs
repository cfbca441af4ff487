//! The stage, suggest, confirm, commit and push sequence as a state machine.
//!
//! The machine never runs anything itself: each transition names the one
//! action that the front-end performs next (run a command, ask a question,
//! show the menu), and the front-end hands the answer back as an event.
use vstd::prelude::*;
use crate::process::WorkflowError;

verus! {

/// The step of the workflow, as a user sees it.
#[derive(Clone, Copy, Debug, PartialEq, Eq, Structural)]
pub enum WorkflowStep {
    Idle,
    CheckingStatus,
    Staging,
    GeneratingMessage,
    AwaitingConfirmation,
    Committing,
    Pushing,
    Done,
    Aborted,
}

/// Where a commit message came from.
#[derive(Clone, Copy, Debug, PartialEq, Eq, Structural)]
pub enum Origin {
    Suggested,
    Manual,
}

/// A message waiting to be committed.
#[derive(Clone, Debug, PartialEq, Eq)]
pub struct CommitMessage {
    pub text: String,
    pub origin: Origin,
}

/// The machine's state, finer than [`WorkflowStep`]: it tells apart the
/// three commands of message generation and the two confirmation gates.
#[derive(Clone, Debug, PartialEq, Eq)]
pub enum Phase {
    Idle,
    /// Waiting for the working-tree status listing.
    CheckingStatus,
    /// Waiting for everything to be staged.
    Staging,
    /// Waiting for the staged-change listing.
    CheckingStaged,
    /// Waiting for the suggestion tool's command line.
    Suggesting,
    /// Waiting for the output of the suggested command line.
    RunningSuggestion,
    /// Asking whether to take the suggested message.
    AwaitingConfirmation(String),
    /// Waiting for a message typed by the user.
    EnteringMessage,
    /// Asking whether to commit with the message.
    ConfirmingCommit(CommitMessage),
    Committing,
    Pushing,
    Done,
    Aborted(WorkflowError),
    Exited,
}

/// A command that the workflow asks the front-end to run.
#[derive(Clone, Debug, PartialEq, Eq)]
pub enum Command {
    /// List every change of the working tree.
    Status,
    /// Stage everything.
    StageAll,
    /// List the staged changes.
    StagedChanges,
    /// Ask the suggestion tool for a command line that prints a message.
    Suggest,
    /// Run a command line that the suggestion tool produced.
    Execute(String),
    /// Commit the staged changes with a message.
    Commit(String),
    /// Push to the fixed remote branch.
    Push,
}

/// A yes/no question of the workflow.
#[derive(Clone, Copy, Debug, PartialEq, Eq, Structural)]
pub enum Prompt {
    /// Take the suggested message?
    AcceptSuggestion,
    /// Commit with the message now chosen?
    ProceedWithCommit,
}

/// What the front-end does next.
#[derive(Clone, Debug, PartialEq, Eq)]
pub enum Action {
    /// Offer the menu: generate, commit and push; or exit.
    ShowMenu,
    /// Run a command and hand back its outcome.
    Run(Command),
    /// Ask a yes/no question and hand back the answer.
    Confirm(Prompt),
    /// Read a commit message typed by the user.
    ReadMessage,
    /// Tell the user how the run ended (see [`Workflow::outcome`]).
    Report,
    /// End the program.
    Exit,
    /// The event did not fit the state; nothing to do.
    Ignore,
}

/// What the front-end hands back.
#[derive(Debug, PartialEq, Eq)]
pub enum Event {
    /// The index of the menu entry chosen.
    MenuChoice(usize),
    /// The outcome of the last command run.
    Finished(Result<String, WorkflowError>),
    /// The answer to the last question.
    Answer(bool),
    /// A message typed by the user.
    Text(String),
    /// The report was shown.
    Acknowledged,
}

/// Menu entry that starts the workflow.
pub const GENERATE_ENTRY: usize = 0;

/// Menu entry that ends the program.
pub const EXIT_ENTRY: usize = 1;

/// The user-visible step of a phase.
pub open spec fn step_of(p: Phase) -> WorkflowStep {
    match p {
        Phase::Idle | Phase::Exited => WorkflowStep::Idle,
        Phase::CheckingStatus => WorkflowStep::CheckingStatus,
        Phase::Staging => WorkflowStep::Staging,
        Phase::CheckingStaged | Phase::Suggesting | Phase::RunningSuggestion => WorkflowStep::GeneratingMessage,
        Phase::AwaitingConfirmation(_) | Phase::EnteringMessage | Phase::ConfirmingCommit(_) => WorkflowStep::AwaitingConfirmation,
        Phase::Committing => WorkflowStep::Committing,
        Phase::Pushing => WorkflowStep::Pushing,
        Phase::Done => WorkflowStep::Done,
        Phase::Aborted(_) => WorkflowStep::Aborted,
    }
}

/// The run ends with `e`, and the user is told.
pub open spec fn abort(e: WorkflowError) -> (Phase, Action) {
    (Phase::Aborted(e), Action::Report)
}

/// The transition table of the workflow.
pub open spec fn transition(p: Phase, e: Event) -> (Phase, Action) {
    match (p, e) {
        (Phase::Idle, Event::MenuChoice(i)) =>
            if i == GENERATE_ENTRY {
                (Phase::CheckingStatus, Action::Run(Command::Status))
            } else {
                (Phase::Exited, Action::Exit)
            },
        (Phase::CheckingStatus, Event::Finished(r)) => match r {
            Ok(out) =>
                if out@.len() == 0 {
                    abort(WorkflowError::NoChanges)
                } else {
                    (Phase::Staging, Action::Run(Command::StageAll))
                },
            Err(err) => abort(err),
        },
        (Phase::Staging, Event::Finished(r)) => match r {
            Ok(_) => (Phase::CheckingStaged, Action::Run(Command::StagedChanges)),
            Err(err) => abort(err),
        },
        (Phase::CheckingStaged, Event::Finished(r)) => match r {
            Ok(out) =>
                if out@.len() == 0 {
                    abort(WorkflowError::NoStagedChanges)
                } else {
                    (Phase::Suggesting, Action::Run(Command::Suggest))
                },
            Err(err) => abort(err),
        },
        (Phase::Suggesting, Event::Finished(r)) => match r {
            Ok(line) =>
                if line@.len() == 0 {
                    abort(WorkflowError::EmptySuggestion)
                } else {
                    (Phase::RunningSuggestion, Action::Run(Command::Execute(line)))
                },
            Err(err) => abort(err),
        },
        (Phase::RunningSuggestion, Event::Finished(r)) => match r {
            Ok(msg) => (Phase::AwaitingConfirmation(msg), Action::Confirm(Prompt::AcceptSuggestion)),
            Err(err) => abort(err),
        },
        (Phase::AwaitingConfirmation(msg), Event::Answer(yes)) =>
            if yes {
                (
                    Phase::ConfirmingCommit(CommitMessage { text: msg, origin: Origin::Suggested }),
                    Action::Confirm(Prompt::ProceedWithCommit),
                )
            } else {
                (Phase::EnteringMessage, Action::ReadMessage)
            },
        (Phase::EnteringMessage, Event::Text(t)) => (
            Phase::ConfirmingCommit(CommitMessage { text: t, origin: Origin::Manual }),
            Action::Confirm(Prompt::ProceedWithCommit),
        ),
        (Phase::ConfirmingCommit(m), Event::Answer(yes)) =>
            if yes {
                (Phase::Committing, Action::Run(Command::Commit(m.text)))
            } else {
                abort(WorkflowError::UserCancelled)
            },
        (Phase::Committing, Event::Finished(r)) => match r {
            Ok(_) => (Phase::Pushing, Action::Run(Command::Push)),
            Err(err) => abort(err),
        },
        (Phase::Pushing, Event::Finished(r)) => match r {
            Ok(_) => (Phase::Done, Action::Report),
            Err(err) => abort(err),
        },
        (Phase::Done, Event::Acknowledged) => (Phase::Idle, Action::ShowMenu),
        (Phase::Aborted(_), Event::Acknowledged) => (Phase::Idle, Action::ShowMenu),
        (p, _) => (p, Action::Ignore),
    }
}

/// The workflow: one run at a time, offered again from the menu after each.
pub struct Workflow {
    pub phase: Phase,
}

impl Workflow {
    /// A workflow at the menu.
    pub fn new() -> (r: Workflow)
        ensures
            r.phase == Phase::Idle,
    {
        Workflow { phase: Phase::Idle }
    }

    /// The user-visible step.
    pub fn step(&self) -> (r: WorkflowStep)
        ensures
            r == step_of(self.phase),
    {
        match &self.phase {
            Phase::Idle | Phase::Exited => WorkflowStep::Idle,
            Phase::CheckingStatus => WorkflowStep::CheckingStatus,
            Phase::Staging => WorkflowStep::Staging,
            Phase::CheckingStaged | Phase::Suggesting | Phase::RunningSuggestion => WorkflowStep::GeneratingMessage,
            Phase::AwaitingConfirmation(_) | Phase::EnteringMessage | Phase::ConfirmingCommit(_) => WorkflowStep::AwaitingConfirmation,
            Phase::Committing => WorkflowStep::Committing,
            Phase::Pushing => WorkflowStep::Pushing,
            Phase::Done => WorkflowStep::Done,
            Phase::Aborted(_) => WorkflowStep::Aborted,
        }
    }

    /// The message in question at a confirmation gate.
    pub fn message(&self) -> (r: Option<&String>)
        ensures
            r == (match self.phase {
                Phase::AwaitingConfirmation(msg) => Some(&msg),
                Phase::ConfirmingCommit(m) => Some(&m.text),
                _ => None,
            }),
    {
        match &self.phase {
            Phase::AwaitingConfirmation(msg) => Some(msg),
            Phase::ConfirmingCommit(m) => Some(&m.text),
            _ => None,
        }
    }

    /// Why the run ended, once it ended in failure.
    pub fn failure(&self) -> (r: Option<&WorkflowError>)
        ensures
            r == (match self.phase {
                Phase::Aborted(e) => Some(&e),
                _ => None,
            }),
    {
        match &self.phase {
            Phase::Aborted(e) => Some(e),
            _ => None,
        }
    }

    /// Takes one event and returns the action that follows it.
    pub fn handle(&mut self, event: Event) -> (r: Action)
        ensures
            (final(self).phase, r) == transition(old(self).phase, event),
    {
        let mut phase = Phase::Idle;
        std::mem::swap(&mut phase, &mut self.phase);
        let (next, action) = next_state(phase, event);
        self.phase = next;
        action
    }
}

/// Whether a staged-change listing names any change.
pub fn has_staged_changes(listing: &String) -> (r: bool)
    ensures
        r == (listing@.len() > 0),
{
    !listing.as_str().is_empty()
}

/// The command line that the suggestion tool answered with, which is to be
/// run to obtain the message; an empty answer is refused.
pub fn suggested_command(answer: String) -> (r: Result<String, WorkflowError>)
    ensures
        answer@.len() == 0 <==> r == Err::<String, WorkflowError>(WorkflowError::EmptySuggestion),
        answer@.len() > 0 <==> r == Ok::<String, WorkflowError>(answer),
{
    if answer.as_str().is_empty() {
        Err(WorkflowError::EmptySuggestion)
    } else {
        Ok(answer)
    }
}

fn fail(e: WorkflowError) -> (r: (Phase, Action))
    ensures
        r == abort(e),
{
    (Phase::Aborted(e), Action::Report)
}

fn next_state(p: Phase, e: Event) -> (r: (Phase, Action))
    ensures
        r == transition(p, e),
{
    match (p, e) {
        (Phase::Idle, Event::MenuChoice(i)) => {
            if i == GENERATE_ENTRY {
                (Phase::CheckingStatus, Action::Run(Command::Status))
            } else {
                (Phase::Exited, Action::Exit)
            }
        },
        (Phase::CheckingStatus, Event::Finished(r)) => match r {
            Ok(out) => {
                if out.as_str().is_empty() {
                    fail(WorkflowError::NoChanges)
                } else {
                    (Phase::Staging, Action::Run(Command::StageAll))
                }
            },
            Err(err) => fail(err),
        },
        (Phase::Staging, Event::Finished(r)) => match r {
            Ok(_) => (Phase::CheckingStaged, Action::Run(Command::StagedChanges)),
            Err(err) => fail(err),
        },
        (Phase::CheckingStaged, Event::Finished(r)) => match r {
            Ok(out) => {
                if !has_staged_changes(&out) {
                    fail(WorkflowError::NoStagedChanges)
                } else {
                    (Phase::Suggesting, Action::Run(Command::Suggest))
                }
            },
            Err(err) => fail(err),
        },
        (Phase::Suggesting, Event::Finished(r)) => match r {
            Ok(line) => match suggested_command(line) {
                Ok(line) => (Phase::RunningSuggestion, Action::Run(Command::Execute(line))),
                Err(err) => fail(err),
            },
            Err(err) => fail(err),
        },
        (Phase::RunningSuggestion, Event::Finished(r)) => match r {
            Ok(msg) => (Phase::AwaitingConfirmation(msg), Action::Confirm(Prompt::AcceptSuggestion)),
            Err(err) => fail(err),
        },
        (Phase::AwaitingConfirmation(msg), Event::Answer(yes)) => {
            if yes {
                (
                    Phase::ConfirmingCommit(CommitMessage { text: msg, origin: Origin::Suggested }),
                    Action::Confirm(Prompt::ProceedWithCommit),
                )
            } else {
                (Phase::EnteringMessage, Action::ReadMessage)
            }
        },
        (Phase::EnteringMessage, Event::Text(t)) => (
            Phase::ConfirmingCommit(CommitMessage { text: t, origin: Origin::Manual }),
            Action::Confirm(Prompt::ProceedWithCommit),
        ),
        (Phase::ConfirmingCommit(m), Event::Answer(yes)) => {
            if yes {
                (Phase::Committing, Action::Run(Command::Commit(m.text)))
            } else {
                fail(WorkflowError::UserCancelled)
            }
        },
        (Phase::Committing, Event::Finished(r)) => match r {
            Ok(_) => (Phase::Pushing, Action::Run(Command::Push)),
            Err(err) => fail(err),
        },
        (Phase::Pushing, Event::Finished(r)) => match r {
            Ok(_) => (Phase::Done, Action::Report),
            Err(err) => fail(err),
        },
        (Phase::Done, Event::Acknowledged) => (Phase::Idle, Action::ShowMenu),
        (Phase::Aborted(_), Event::Acknowledged) => (Phase::Idle, Action::ShowMenu),
        (p, _) => (p, Action::Ignore),
    }
}

/// The actions that follow from feeding `evs` one by one, from phase `p`,
/// and the phase reached.
pub open spec fn run(p: Phase, evs: Seq<Event>) -> (Phase, Seq<Action>)
    decreases evs.len(),
{
    if evs.len() == 0 {
        (p, Seq::empty())
    } else {
        let (q, a) = transition(p, evs[0]);
        let (f, rest) = run(q, evs.drop_first());
        (f, seq![a] + rest)
    }
}

/// Nothing is run, asked or read before the menu is next shown: every
/// action up to the first `ShowMenu` is `Ignore`.
pub open spec fn quiet_until_menu(acts: Seq<Action>) -> bool
    decreases acts.len(),
{
    acts.len() == 0 || acts[0] == Action::ShowMenu || (acts[0] == Action::Ignore && quiet_until_menu(
        acts.drop_first(),
    ))
}

/// A run that has ended in failure issues nothing more: whatever events
/// come, it only waits for the user to be back at the menu.
pub proof fn lemma_aborted_is_quiet(e: WorkflowError, evs: Seq<Event>)
    ensures
        quiet_until_menu(run(Phase::Aborted(e), evs).1),
    decreases evs.len(),
{
    if evs.len() > 0 {
        let acts = run(Phase::Aborted(e), evs).1;
        if evs[0] != Event::Acknowledged {
            lemma_aborted_is_quiet(e, evs.drop_first());
            assert(acts.drop_first() == run(Phase::Aborted(e), evs.drop_first()).1);
        }
    }
}

/// Ending a run with `e` reports it and then issues nothing more before the
/// menu, whatever events follow.
pub open spec fn ends_quietly(t: (Phase, Action), e: WorkflowError) -> bool {
    &&& t == abort(e)
    &&& forall|evs: Seq<Event>| quiet_until_menu(#[trigger] run(t.0, evs).1)
}

proof fn lemma_abort_ends_quietly(e: WorkflowError)
    ensures
        ends_quietly(abort(e), e),
{
    assert forall|evs: Seq<Event>| quiet_until_menu(#[trigger] run(abort(e).0, evs).1) by {
        lemma_aborted_is_quiet(e, evs);
    }
}

/// When the staged-change listing is empty, the run fails with
/// `NoStagedChanges` and the suggestion tool is never asked.
pub proof fn lemma_no_staged_changes_stops(listing: String)
    requires
        listing@.len() == 0,
    ensures
        ends_quietly(
            transition(Phase::CheckingStaged, Event::Finished(Ok(listing))),
            WorkflowError::NoStagedChanges,
        ),
{
    lemma_abort_ends_quietly(WorkflowError::NoStagedChanges);
}

/// When the suggestion tool answers with nothing, the run fails with
/// `EmptySuggestion` and no suggested command is run.
pub proof fn lemma_empty_suggestion_stops(answer: String)
    requires
        answer@.len() == 0,
    ensures
        ends_quietly(
            transition(Phase::Suggesting, Event::Finished(Ok(answer))),
            WorkflowError::EmptySuggestion,
        ),
{
    lemma_abort_ends_quietly(WorkflowError::EmptySuggestion);
}

/// Declining the last confirmation cancels the run: no commit and no push is
/// issued before the menu comes back.
pub proof fn lemma_decline_commits_nothing(m: CommitMessage)
    ensures
        ends_quietly(
            transition(Phase::ConfirmingCommit(m), Event::Answer(false)),
            WorkflowError::UserCancelled,
        ),
{
    lemma_abort_ends_quietly(WorkflowError::UserCancelled);
}

/// A failed push ends the run with its failure and issues no further command,
/// so the commit made before it stays.
pub proof fn lemma_failed_push_keeps_commit(e: WorkflowError)
    ensures
        ends_quietly(transition(Phase::Pushing, Event::Finished(Err(e))), e),
{
    lemma_abort_ends_quietly(e);
}

} // verus!
