//! State of the tabbed repository view: which tab is selected, and what
//! each key press does to it.
use vstd::prelude::*;
use vstd::string::*;

verus! {

/// Number of tabs that the view offers.
pub const TAB_COUNT: usize = 4;

/// The selected tab after moving forward from `i` among `n` tabs.
pub open spec fn next_index(i: int, n: int) -> int {
    (i + 1) % n
}

/// The selected tab after moving backward from `i` among `n` tabs.
pub open spec fn previous_index(i: int, n: int) -> int {
    if i > 0 {
        i - 1
    } else {
        n - 1
    }
}

/// The selection reached from `i` after `k` forward moves among `n` tabs.
pub open spec fn advance(i: int, n: int, k: nat) -> int
    decreases k,
{
    if k == 0 {
        i
    } else {
        next_index(advance(i, n, (k - 1) as nat), n)
    }
}

/// The text shown for tab `i`.
pub open spec fn content_of(i: int) -> Seq<char> {
    if i == 0 {
        "Status View\n\n• Working directory clean\n• 3 files staged\n• 2 files modified"@
    } else if i == 1 {
        "Changes View\n\n• Modified: src/main.rs\n• Staged: README.md\n• Untracked: .gitignore"@
    } else if i == 2 {
        "History View\n\n• feat: Add new feature\n• fix: Bug fix\n• chore: Update dependencies"@
    } else {
        "Settings View\n\n• Editor: vim\n• Theme: dark\n• Auto-commit: enabled"@
    }
}

/// A key as the view understands it.
#[derive(Clone, Copy, Debug, PartialEq, Eq)]
pub enum Key {
    Char(char),
    Tab,
    BackTab,
    Other,
}

/// What the view does in answer to a key.
#[derive(Clone, Copy, Debug, PartialEq, Eq)]
pub enum KeyOutcome {
    Quit,
    Continue,
}

/// The view's state: the tab names, the selected tab, and the texts of the
/// header and footer.
pub struct App {
    pub current_tab: usize,
    pub tabs: Vec<String>,
    pub status: String,
    pub branch: String,
}

impl App {
    /// The selection always names one of the tabs.
    pub open spec fn wf(&self) -> bool {
        0 < self.tabs@.len() && self.current_tab < self.tabs@.len()
    }

    /// Four tabs, the first selected, on branch `main`, with status `Ready`.
    pub fn new() -> (r: App)
        ensures
            r.wf(),
            r.current_tab == 0,
            r.tabs@.len() == TAB_COUNT,
            r.tabs@[0]@ == "Status"@,
            r.tabs@[1]@ == "Changes"@,
            r.tabs@[2]@ == "History"@,
            r.tabs@[3]@ == "Settings"@,
            r.status@ == "Ready"@,
            r.branch@ == "main"@,
    {
        let mut tabs: Vec<String> = Vec::new();
        tabs.push(String::from_str("Status"));
        tabs.push(String::from_str("Changes"));
        tabs.push(String::from_str("History"));
        tabs.push(String::from_str("Settings"));
        App {
            current_tab: 0,
            tabs,
            status: String::from_str("Ready"),
            branch: String::from_str("main"),
        }
    }

    /// The text of the selected tab's panel.
    pub fn content(&self) -> (r: &'static str)
        ensures
            r@ == content_of(self.current_tab as int),
    {
        if self.current_tab == 0 {
            "Status View\n\n• Working directory clean\n• 3 files staged\n• 2 files modified"
        } else if self.current_tab == 1 {
            "Changes View\n\n• Modified: src/main.rs\n• Staged: README.md\n• Untracked: .gitignore"
        } else if self.current_tab == 2 {
            "History View\n\n• feat: Add new feature\n• fix: Bug fix\n• chore: Update dependencies"
        } else {
            "Settings View\n\n• Editor: vim\n• Theme: dark\n• Auto-commit: enabled"
        }
    }

    /// The name of the selected tab.
    pub fn title(&self) -> (r: &String)
        requires
            self.wf(),
        ensures
            r == self.tabs@[self.current_tab as int],
    {
        &self.tabs[self.current_tab]
    }

    /// The branch as the header shows it: `[main]`.
    pub fn branch_label(&self) -> (r: String)
        ensures
            r@ == "["@ + self.branch@ + "]"@,
    {
        String::from_str("[").concat(self.branch.as_str()).concat("]")
    }

    /// The status as the footer shows it: `Status: Ready`.
    pub fn status_label(&self) -> (r: String)
        ensures
            r@ == "Status: "@ + self.status@,
    {
        String::from_str("Status: ").concat(self.status.as_str())
    }

    /// Selects the next tab, wrapping from the last to the first.
    pub fn next_tab(&mut self)
        requires
            old(self).wf(),
        ensures
            final(self).wf(),
            final(self).current_tab == next_index(old(self).current_tab as int, old(self).tabs@.len() as int),
            final(self).tabs == old(self).tabs,
            final(self).status == old(self).status,
            final(self).branch == old(self).branch,
    {
        let n = self.tabs.len();
        self.current_tab = (self.current_tab + 1) % n;
    }

    /// Selects the previous tab, wrapping from the first to the last.
    pub fn previous_tab(&mut self)
        requires
            old(self).wf(),
        ensures
            final(self).wf(),
            final(self).current_tab == previous_index(old(self).current_tab as int, old(self).tabs@.len() as int),
            final(self).tabs == old(self).tabs,
            final(self).status == old(self).status,
            final(self).branch == old(self).branch,
    {
        self.current_tab = if self.current_tab > 0 {
            self.current_tab - 1
        } else {
            self.tabs.len() - 1
        };
    }

    /// Answers a key: `q` quits, `Tab` and `BackTab` move the selection,
    /// any other key changes nothing.
    pub fn handle_key(&mut self, key: Key) -> (r: KeyOutcome)
        requires
            old(self).wf(),
        ensures
            final(self).wf(),
            r == (if key == Key::Char('q') { KeyOutcome::Quit } else { KeyOutcome::Continue }),
            final(self).current_tab == (match key {
                Key::Tab => next_index(old(self).current_tab as int, old(self).tabs@.len() as int),
                Key::BackTab => previous_index(old(self).current_tab as int, old(self).tabs@.len() as int),
                _ => old(self).current_tab as int,
            }),
            final(self).tabs == old(self).tabs,
            final(self).status == old(self).status,
            final(self).branch == old(self).branch,
    {
        match key {
            Key::Char(c) => {
                if c == 'q' {
                    KeyOutcome::Quit
                } else {
                    KeyOutcome::Continue
                }
            },
            Key::Tab => {
                self.next_tab();
                KeyOutcome::Continue
            },
            Key::BackTab => {
                self.previous_tab();
                KeyOutcome::Continue
            },
            Key::Other => KeyOutcome::Continue,
        }
    }
}

/// From the first tab, `n` forward moves among `n` tabs come back to it, and
/// one backward move reaches the last tab.
pub proof fn lemma_tab_cycle(n: nat)
    requires
        n > 0,
    ensures
        advance(0, n as int, n) == 0,
        previous_index(0, n as int) == n - 1,
{
    lemma_advance_from_zero(n, n);
}

/// `k` forward moves from the first tab land on `k mod n`.
pub proof fn lemma_advance_from_zero(n: nat, k: nat)
    requires
        n > 0,
    ensures
        advance(0, n as int, k) == (k as int) % (n as int),
    decreases k,
{
    if k > 0 {
        lemma_advance_from_zero(n, (k - 1) as nat);
        let j = (k - 1) as int;
        let m = n as int;
        assert(((j % m) + 1) % m == (j + 1) % m) by {
            vstd::arithmetic::div_mod::lemma_add_mod_noop(j, 1, m);
            vstd::arithmetic::div_mod::lemma_add_mod_noop(j % m, 1, m);
            vstd::arithmetic::div_mod::lemma_mod_twice(j, m);
        }
    } else {
        vstd::arithmetic::div_mod::lemma_small_mod(0, n);
    }
}

} // verus!
