//! The shell command lines behind the workflow's commands.
use vstd::prelude::*;
use vstd::string::*;
use crate::workflow::Command;

verus! {

/// `s` with every single quote written as `'\''`, so that it can stand
/// between single quotes in a shell command line.
pub open spec fn escape_quotes(s: Seq<char>) -> Seq<char>
    decreases s.len(),
{
    if s.len() == 0 {
        Seq::empty()
    } else {
        let last = s.last();
        escape_quotes(s.drop_last()) + if last == '\'' {
            seq!['\'', '\\', '\'', '\'']
        } else {
            seq![last]
        }
    }
}

/// `s` as one shell word: between single quotes, inner quotes escaped.
pub open spec fn shell_word(s: Seq<char>) -> Seq<char> {
    seq!['\''] + escape_quotes(s) + seq!['\'']
}

/// Asks the suggestion tool for a shell command that prints a commit message
/// describing the staged changes.
pub open spec fn suggest_line() -> Seq<char> {
    "gh copilot suggest -t shell 'Write a git commit message for the staged changes, as a command that prints it'"@
}

/// The command line that runs `c`.
pub open spec fn command_text(c: Command) -> Seq<char> {
    match c {
        Command::Status => "git status --porcelain"@,
        Command::StageAll => "git add -A"@,
        Command::StagedChanges => "git diff --cached --name-only"@,
        Command::Suggest => suggest_line(),
        Command::Execute(line) => line@,
        Command::Commit(msg) => "git commit -m "@ + shell_word(msg@),
        Command::Push => "git push origin main"@,
    }
}

/// `s` as one shell word, safe to place in a command line whatever it holds.
pub fn quote_for_shell(s: &String) -> (r: String)
    ensures
        r@ == shell_word(s@),
{
    let text = s.as_str();
    let n = text.unicode_len();
    let mut out = String::from_str("'");
    let mut i: usize = 0;
    proof {
        reveal_strlit("'");
    }
    while i < n
        invariant
            n == text@.len(),
            text@ == s@,
            i <= n,
            out@ == seq!['\''] + escape_quotes(s@.subrange(0, i as int)),
        decreases n - i,
    {
        let c = text.get_char(i);
        proof {
            let pre = s@.subrange(0, i as int);
            let next = s@.subrange(0, i + 1);
            assert(next.drop_last() == pre);
            assert(next.last() == c);
        }
        if c == '\'' {
            proof {
                reveal_strlit("'\\''");
            }
            out.append("'\\''");
        } else {
            let piece = text.substring_char(i, i + 1);
            out.append(piece);
        }
        i = i + 1;
    }
    proof {
        assert(s@.subrange(0, n as int) == s@);
    }
    out.append("'");
    out
}

impl Command {
    /// The shell command line that runs this command.
    pub fn line(&self) -> (r: String)
        ensures
            r@ == command_text(*self),
    {
        match self {
            Command::Status => String::from_str("git status --porcelain"),
            Command::StageAll => String::from_str("git add -A"),
            Command::StagedChanges => String::from_str("git diff --cached --name-only"),
            Command::Suggest => String::from_str(
                "gh copilot suggest -t shell 'Write a git commit message for the staged changes, as a command that prints it'",
            ),
            Command::Execute(line) => line.clone(),
            Command::Commit(msg) => String::from_str("git commit -m ").concat(quote_for_shell(msg).as_str()),
            Command::Push => String::from_str("git push origin main"),
        }
    }
}

} // verus!
