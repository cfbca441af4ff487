use git_tui::command::quote_for_shell;
use git_tui::workflow::Command;

#[test]
fn fixed_command_lines() {
    assert_eq!(Command::Status.line(), "git status --porcelain");
    assert_eq!(Command::StageAll.line(), "git add -A");
    assert_eq!(Command::StagedChanges.line(), "git diff --cached --name-only");
    assert_eq!(Command::Push.line(), "git push origin main");
    assert!(Command::Suggest.line().starts_with("gh copilot suggest -t shell '"));
}

#[test]
fn suggested_line_runs_as_given() {
    assert_eq!(Command::Execute("echo hi".to_string()).line(), "echo hi");
}

#[test]
fn commit_message_is_quoted() {
    assert_eq!(
        Command::Commit("fix: correct null check".to_string()).line(),
        "git commit -m 'fix: correct null check'"
    );
}

#[test]
fn quotes_inside_message_are_escaped() {
    assert_eq!(quote_for_shell(&"it's $HOME".to_string()), "'it'\\''s $HOME'");
    assert_eq!(quote_for_shell(&String::new()), "''");
}
