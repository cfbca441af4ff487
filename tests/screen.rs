use git_tui::screen::{App, Key, KeyOutcome, TAB_COUNT};

#[test]
fn new_app_starts_on_status_tab() {
    let app = App::new();
    assert_eq!(app.current_tab, 0);
    assert_eq!(app.tabs, vec!["Status", "Changes", "History", "Settings"]);
    assert_eq!(app.status, "Ready");
    assert_eq!(app.branch, "main");
    assert_eq!(app.tabs.len(), TAB_COUNT);
}

#[test]
fn next_tab_cycles_back_to_first() {
    let mut app = App::new();
    for _ in 0..TAB_COUNT {
        app.next_tab();
    }
    assert_eq!(app.current_tab, 0);
}

#[test]
fn next_tab_moves_one_forward() {
    let mut app = App::new();
    app.next_tab();
    assert_eq!(app.current_tab, 1);
    assert_eq!(app.title(), "Changes");
}

#[test]
fn previous_tab_from_first_wraps_to_last() {
    let mut app = App::new();
    app.previous_tab();
    assert_eq!(app.current_tab, TAB_COUNT - 1);
    assert_eq!(app.title(), "Settings");
    app.previous_tab();
    assert_eq!(app.current_tab, 2);
}

#[test]
fn keys_drive_navigation_and_quit() {
    let mut app = App::new();
    assert_eq!(app.handle_key(Key::Tab), KeyOutcome::Continue);
    assert_eq!(app.current_tab, 1);
    assert_eq!(app.handle_key(Key::BackTab), KeyOutcome::Continue);
    assert_eq!(app.current_tab, 0);
    assert_eq!(app.handle_key(Key::Char('x')), KeyOutcome::Continue);
    assert_eq!(app.handle_key(Key::Other), KeyOutcome::Continue);
    assert_eq!(app.current_tab, 0);
    assert_eq!(app.handle_key(Key::Char('q')), KeyOutcome::Quit);
    assert_eq!(app.current_tab, 0);
}

#[test]
fn content_follows_selected_tab() {
    let mut app = App::new();
    assert!(app.content().starts_with("Status View\n\n"));
    app.next_tab();
    assert!(app.content().contains("Modified: src/main.rs"));
    app.next_tab();
    assert!(app.content().starts_with("History View"));
    app.next_tab();
    assert!(app.content().ends_with("Auto-commit: enabled"));
}

#[test]
fn header_and_footer_labels() {
    let app = App::new();
    assert_eq!(app.branch_label(), "[main]");
    assert_eq!(app.status_label(), "Status: Ready");
}
