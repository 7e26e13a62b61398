//! The application state and how it reacts to keys.
//!
//! Everything the interface decides lives here; reading files, running
//! commands and drawing are left to the caller, which learns what to do from
//! the returned [`Effect`] and from [`App::pending`].
use vstd::prelude::*;
use crate::config::{config_file, config_rel, path, CONFIG_COUNT};
use crate::symlink::{definitions, link_definitions, links_view, LinkState, LinkStateView, Symlink, SymlinkView};
use crate::tab::{tab_after, tab_before, Tab};
use crate::text::{cat, cat3, code_text, code_to_text, owned, path_join};
use crate::tools::{texts_view, tool, tool_name, Invocation, InvocationView, RunOutcome, TOOL_COUNT};

verus! {

/// How a log line is coloured.
#[derive(Debug, Clone, Copy, PartialEq, Eq, Structural)]
pub enum Level {
    Info,
    Command,
    Success,
    Error,
}

/// One line of the log pane.
#[derive(Debug, Clone)]
pub struct LogLine {
    pub text: String,
    pub level: Level,
}

/// The ghost counterpart of [`LogLine`].
pub struct LogEntry {
    pub text: Seq<char>,
    pub level: Level,
}

impl View for LogLine {
    type V = LogEntry;

    open spec fn view(&self) -> LogEntry {
        LogEntry { text: self.text@, level: self.level }
    }
}

pub open spec fn entry(text: Seq<char>, level: Level) -> LogEntry {
    LogEntry { text, level }
}

pub open spec fn log_view(v: Seq<LogLine>) -> Seq<LogEntry> {
    v.map_values(|l: LogLine| l@)
}

impl LogLine {
    /// A plain informational line.
    pub fn info(text: String) -> (r: Self)
        ensures
            r@ == entry(text@, Level::Info),
    {
        Self { text, level: Level::Info }
    }

    /// A line echoing a command that is about to run.
    pub fn command(text: String) -> (r: Self)
        ensures
            r@ == entry(text@, Level::Command),
    {
        Self { text, level: Level::Command }
    }

    /// A line reporting success.
    pub fn success(text: String) -> (r: Self)
        ensures
            r@ == entry(text@, Level::Success),
    {
        Self { text, level: Level::Success }
    }

    /// A line reporting a failure.
    pub fn error(text: String) -> (r: Self)
        ensures
            r@ == entry(text@, Level::Error),
    {
        Self { text, level: Level::Error }
    }
}

/// The key of a key press, as far as the interface tells keys apart.
#[derive(Debug, Clone, Copy, PartialEq, Eq, Structural)]
pub enum KeyCode {
    Char(char),
    Tab,
    BackTab,
    Up,
    Down,
    Home,
    End,
    Enter,
    /// Any key the interface does not react to.
    Other,
}

/// A key press: the key, and whether Control was held.
#[derive(Debug, Clone, Copy, PartialEq, Eq, Structural)]
pub struct Key {
    pub code: KeyCode,
    pub control: bool,
}

/// Work the interface asks the main loop to do between two frames.
#[derive(Debug)]
pub enum PendingAction {
    RunSelectedInstalls,
    CreateSymlink(usize),
    RemoveSymlink(usize),
    EditConfig(String),
    RefreshStatus,
}

/// The ghost counterpart of [`PendingAction`].
pub enum PendingView {
    RunSelectedInstalls,
    CreateSymlink(usize),
    RemoveSymlink(usize),
    EditConfig(Seq<char>),
    RefreshStatus,
}

impl View for PendingAction {
    type V = PendingView;

    open spec fn view(&self) -> PendingView {
        match self {
            PendingAction::RunSelectedInstalls => PendingView::RunSelectedInstalls,
            PendingAction::CreateSymlink(i) => PendingView::CreateSymlink(*i),
            PendingAction::RemoveSymlink(i) => PendingView::RemoveSymlink(*i),
            PendingAction::EditConfig(p) => PendingView::EditConfig(p@),
            PendingAction::RefreshStatus => PendingView::RefreshStatus,
        }
    }
}

/// Outside work a key press needs done at once, before the next frame.
#[derive(Debug, Clone, Copy, PartialEq, Eq, Structural)]
pub enum Effect {
    Nothing,
    /// Read the configuration file with this index and hand its contents to
    /// [`App::load_config_preview`].
    LoadPreview(usize),
    /// Probe every tool and link again and hand the answers to
    /// [`App::refresh_status`].
    Refresh,
}

/// The whole state of the interface.
pub struct App {
    pub tab: Tab,
    pub should_quit: bool,
    pub pending: Option<PendingAction>,
    /// Cursor of the Install list.
    pub install_state: Option<usize>,
    /// Which tools are ticked for installation.
    pub install_checked: Vec<bool>,
    /// Which tools were found present at the last refresh.
    pub status: Vec<bool>,
    pub symlinks: Vec<Symlink>,
    /// Cursor of the Symlinks list.
    pub symlink_state: Option<usize>,
    /// The state of each link at the last refresh.
    pub symlink_states: Vec<LinkState>,
    /// Cursor of the Configs list.
    pub config_state: Option<usize>,
    pub config_preview: String,
    pub config_preview_path: Option<String>,
    /// Cursor of the Status table.
    pub status_state: Option<usize>,
    pub log: Vec<LogLine>,
    /// The root of the dotfiles repository.
    pub dotfiles: String,
}

/// The ghost counterpart of [`App`].
pub struct AppView {
    pub tab: Tab,
    pub should_quit: bool,
    pub pending: Option<PendingView>,
    pub install_state: Option<usize>,
    pub install_checked: Seq<bool>,
    pub status: Seq<bool>,
    pub symlinks: Seq<SymlinkView>,
    pub symlink_state: Option<usize>,
    pub symlink_states: Seq<LinkStateView>,
    pub config_state: Option<usize>,
    pub config_preview: Seq<char>,
    pub config_preview_path: Option<Seq<char>>,
    pub status_state: Option<usize>,
    pub log: Seq<LogEntry>,
    pub dotfiles: Seq<char>,
}

pub open spec fn states_view(v: Seq<LinkState>) -> Seq<LinkStateView> {
    v.map_values(|s: LinkState| s@)
}

pub open spec fn opt_view(o: Option<String>) -> Option<Seq<char>> {
    match o {
        Some(s) => Some(s@),
        None => None,
    }
}

pub open spec fn pending_view(o: Option<PendingAction>) -> Option<PendingView> {
    match o {
        Some(p) => Some(p@),
        None => None,
    }
}

impl View for App {
    type V = AppView;

    open spec fn view(&self) -> AppView {
        AppView {
            tab: self.tab,
            should_quit: self.should_quit,
            pending: pending_view(self.pending),
            install_state: self.install_state,
            install_checked: self.install_checked@,
            status: self.status@,
            symlinks: links_view(self.symlinks@),
            symlink_state: self.symlink_state,
            symlink_states: states_view(self.symlink_states@),
            config_state: self.config_state,
            config_preview: self.config_preview@,
            config_preview_path: opt_view(self.config_preview_path),
            status_state: self.status_state,
            log: log_view(self.log@),
            dotfiles: self.dotfiles@,
        }
    }
}

pub open spec fn cursor_ok(c: Option<usize>, len: int) -> bool {
    c matches Some(i) ==> i < len
}

/// What every reachable state satisfies: one tick and one status per tool,
/// one state per link, at least one link, and every cursor inside its list.
pub open spec fn app_wf(v: AppView) -> bool {
    &&& v.install_checked.len() == TOOL_COUNT
    &&& v.status.len() == TOOL_COUNT
    &&& 0 < v.symlinks.len() <= usize::MAX
    &&& v.symlink_states.len() == v.symlinks.len()
    &&& cursor_ok(v.install_state, TOOL_COUNT as int)
    &&& cursor_ok(v.symlink_state, v.symlinks.len() as int)
    &&& cursor_ok(v.config_state, CONFIG_COUNT as int)
    &&& cursor_ok(v.status_state, TOOL_COUNT as int)
}

/// The help line logged on `?`.
pub const HELP_TEXT: &'static str = "Keys: Tab/1-4 switch tabs | j/k move | Space toggle | Enter action | a select all | n select none | i invert | c create link | r remove/refresh | e edit config | R refresh | q quit";

pub const REFRESHING_TEXT: &'static str = "refreshing status...";

pub const REFRESHED_TEXT: &'static str = "status refreshed";

pub const NO_TOOL_TEXT: &'static str = "no tool selected";

/// The line logged when a tool is marked from the Status tab.
pub open spec fn marked_text(i: int) -> Seq<char> {
    "marked '"@ + tool_name(i) + "' for install; press Enter on Install tab to run"@
}

/// The number of rows of the list the current tab shows.
pub open spec fn list_len(v: AppView) -> int {
    match v.tab {
        Tab::Install => TOOL_COUNT as int,
        Tab::Symlinks => v.symlinks.len() as int,
        Tab::Configs => CONFIG_COUNT as int,
        Tab::Status => TOOL_COUNT as int,
    }
}

/// The cursor of the current tab.
pub open spec fn cursor(v: AppView) -> Option<usize> {
    match v.tab {
        Tab::Install => v.install_state,
        Tab::Symlinks => v.symlink_state,
        Tab::Configs => v.config_state,
        Tab::Status => v.status_state,
    }
}

/// `v` with the current tab's cursor on row `n`.
pub open spec fn with_cursor(v: AppView, n: usize) -> AppView {
    match v.tab {
        Tab::Install => AppView { install_state: Some(n), ..v },
        Tab::Symlinks => AppView { symlink_state: Some(n), ..v },
        Tab::Configs => AppView { config_state: Some(n), ..v },
        Tab::Status => AppView { status_state: Some(n), ..v },
    }
}

/// Landing on a row of the Configs list loads that file's preview.
pub open spec fn landing_effect(v: AppView, n: usize) -> Effect {
    if v.tab == Tab::Configs {
        Effect::LoadPreview(n)
    } else {
        Effect::Nothing
    }
}

/// The row reached from `cur` by `delta` steps in a list of `len` rows:
/// stepping before the first row lands on the last, stepping past the last
/// lands on the first.
pub open spec fn wrap_move(cur: int, len: int, delta: int) -> int {
    let next = cur + delta;
    let next = if next < 0 {
        len - 1
    } else {
        next
    };
    if next >= len {
        0
    } else {
        next
    }
}

/// Moving the cursor of the current tab by `delta` rows.
pub open spec fn after_move(v: AppView, delta: int) -> (AppView, Effect) {
    let len = list_len(v);
    if len == 0 {
        (v, Effect::Nothing)
    } else {
        let cur = match cursor(v) {
            Some(c) => c as int,
            None => 0,
        };
        let n = wrap_move(cur, len, delta) as usize;
        (with_cursor(v, n), landing_effect(v, n))
    }
}

/// Putting the cursor of the current tab on row `n`.
pub open spec fn after_jump(v: AppView, n: usize) -> (AppView, Effect) {
    (with_cursor(v, n), landing_effect(v, n))
}

/// `v` with one more log line.
pub open spec fn logged(v: AppView, e: LogEntry) -> AppView {
    AppView { log: v.log.push(e), ..v }
}

pub open spec fn with_pending(v: AppView, p: PendingView) -> AppView {
    AppView { pending: Some(p), ..v }
}

/// A key on the Install tab that the global keys leave alone.
pub open spec fn on_install_key(v: AppView, code: KeyCode) -> AppView {
    let checked = v.install_checked;
    match code {
        KeyCode::Char(' ') => match v.install_state {
            Some(i) => AppView { install_checked: checked.update(i as int, !checked[i as int]), ..v },
            None => v,
        },
        KeyCode::Enter => if exists|k: int| 0 <= k < checked.len() && checked[k] {
            with_pending(v, PendingView::RunSelectedInstalls)
        } else {
            match v.install_state {
                Some(i) => with_pending(
                    AppView { install_checked: checked.update(i as int, true), ..v },
                    PendingView::RunSelectedInstalls,
                ),
                None => logged(v, entry(NO_TOOL_TEXT@, Level::Error)),
            }
        },
        KeyCode::Char('a') => AppView { install_checked: Seq::new(checked.len(), |k: int| true), ..v },
        KeyCode::Char('n') => AppView {
            install_checked: Seq::new(checked.len(), |k: int| false),
            ..v
        },
        KeyCode::Char('i') => AppView {
            install_checked: Seq::new(checked.len(), |k: int| !checked[k]),
            ..v
        },
        _ => v,
    }
}

/// A key on the Symlinks tab that the global keys leave alone.
pub open spec fn on_symlink_key(v: AppView, code: KeyCode) -> AppView {
    match code {
        KeyCode::Enter | KeyCode::Char('c') => match v.symlink_state {
            Some(i) => with_pending(v, PendingView::CreateSymlink(i)),
            None => v,
        },
        KeyCode::Char('r') => match v.symlink_state {
            Some(i) => with_pending(v, PendingView::RemoveSymlink(i)),
            None => v,
        },
        _ => v,
    }
}

/// A key on the Configs tab that the global keys leave alone.
pub open spec fn on_config_key(v: AppView, code: KeyCode) -> AppView {
    match code {
        KeyCode::Enter | KeyCode::Char('e') => match v.config_state {
            Some(i) => with_pending(
                v,
                PendingView::EditConfig(path_join(v.dotfiles, config_rel(i as int))),
            ),
            None => v,
        },
        _ => v,
    }
}

/// A key on the Status tab that the global keys leave alone: Enter ticks the
/// tool under the cursor and moves to it on the Install tab.
pub open spec fn on_status_key(v: AppView, code: KeyCode) -> AppView {
    if code == KeyCode::Enter {
        match v.status_state {
            Some(i) => logged(
                AppView {
                    tab: Tab::Install,
                    install_state: Some(i),
                    install_checked: v.install_checked.update(i as int, true),
                    ..v
                },
                entry(marked_text(i as int), Level::Info),
            ),
            None => v,
        }
    } else {
        v
    }
}

/// A key that only the current tab gives a meaning to.
pub open spec fn on_tab_key(v: AppView, code: KeyCode) -> AppView {
    match v.tab {
        Tab::Install => on_install_key(v, code),
        Tab::Symlinks => on_symlink_key(v, code),
        Tab::Configs => on_config_key(v, code),
        Tab::Status => on_status_key(v, code),
    }
}

/// The state after a key press, and the outside work it needs at once.
pub open spec fn on_key(v: AppView, key: Key) -> (AppView, Effect) {
    if key.control {
        if key.code == KeyCode::Char('c') {
            (AppView { should_quit: true, ..v }, Effect::Nothing)
        } else {
            (v, Effect::Nothing)
        }
    } else {
        match key.code {
            KeyCode::Char('q') => (AppView { should_quit: true, ..v }, Effect::Nothing),
            KeyCode::Tab | KeyCode::Char('l') => (
                AppView { tab: tab_after(v.tab), ..v },
                Effect::Nothing,
            ),
            KeyCode::BackTab | KeyCode::Char('h') => (
                AppView { tab: tab_before(v.tab), ..v },
                Effect::Nothing,
            ),
            KeyCode::Char('1') => (AppView { tab: Tab::Install, ..v }, Effect::Nothing),
            KeyCode::Char('2') => (AppView { tab: Tab::Symlinks, ..v }, Effect::Nothing),
            KeyCode::Char('3') => (AppView { tab: Tab::Configs, ..v }, Effect::Nothing),
            KeyCode::Char('4') => (AppView { tab: Tab::Status, ..v }, Effect::Nothing),
            KeyCode::Down | KeyCode::Char('j') => after_move(v, 1),
            KeyCode::Up | KeyCode::Char('k') => after_move(v, -1),
            KeyCode::Home | KeyCode::Char('g') => after_jump(v, 0),
            KeyCode::End | KeyCode::Char('G') => after_jump(
                v,
                (if list_len(v) > 0 {
                    list_len(v) - 1
                } else {
                    0
                }) as usize,
            ),
            KeyCode::Char('r') => if v.tab == Tab::Status {
                (
                    logged(
                        logged(v, entry(REFRESHING_TEXT@, Level::Info)),
                        entry(REFRESHED_TEXT@, Level::Success),
                    ),
                    Effect::Refresh,
                )
            } else if v.tab == Tab::Symlinks {
                (on_symlink_key(v, key.code), Effect::Nothing)
            } else {
                (with_pending(v, PendingView::RefreshStatus), Effect::Nothing)
            },
            KeyCode::Char('?') => (logged(v, entry(HELP_TEXT@, Level::Info)), Effect::Nothing),
            KeyCode::Char('R') => (
                logged(v, entry(REFRESHED_TEXT@, Level::Success)),
                Effect::Refresh,
            ),
            _ => (on_tab_key(v, key.code), Effect::Nothing),
        }
    }
}

/// The first log line.
pub open spec fn ready_text(distro: Seq<char>) -> Seq<char> {
    "dotfiles-tui ready. OS: "@ + distro + ". Use Tab to switch, ? for help, q to quit."@
}

/// What the preview pane shows for the outcome of reading a file.
pub open spec fn preview_text(content: Result<String, String>) -> Seq<char> {
    match content {
        Ok(c) => c@,
        Err(e) => "(error: "@ + e@ + ")"@,
    }
}

/// The state right after start-up, given the home directory, the repository
/// root, the name of the system, the presence of each tool and the state of
/// each link, and what reading the first configuration file gave.
pub open spec fn initial_view(
    home: Seq<char>,
    dotfiles: Seq<char>,
    distro: Seq<char>,
    status: Seq<bool>,
    links: Seq<LinkStateView>,
    first: Result<String, String>,
) -> AppView {
    AppView {
        tab: Tab::Install,
        should_quit: false,
        pending: None,
        install_state: Some(0),
        install_checked: Seq::new(TOOL_COUNT as nat, |k: int| false),
        status,
        symlinks: link_definitions(home, dotfiles),
        symlink_state: Some(0),
        symlink_states: links,
        config_state: Some(0),
        config_preview: preview_text(first),
        config_preview_path: Some(config_rel(0)),
        status_state: Some(0),
        log: seq![entry(ready_text(distro), Level::Info)],
        dotfiles,
    }
}

/// `v` after loading the preview of the `idx`-th configuration file (an
/// index past the list changes nothing).
pub open spec fn with_preview(v: AppView, idx: int, content: Result<String, String>) -> AppView {
    if 0 <= idx < CONFIG_COUNT {
        AppView {
            config_preview_path: Some(config_rel(idx)),
            config_preview: preview_text(content),
            ..v
        }
    } else {
        v
    }
}

/// The indices, in increasing order, of the first `n` entries that are set.
pub open spec fn set_indices_upto(s: Seq<bool>, n: int) -> Seq<usize>
    decreases n,
{
    if n <= 0 {
        seq![]
    } else {
        let r = set_indices_upto(s, n - 1);
        if s[n - 1] {
            r.push((n - 1) as usize)
        } else {
            r
        }
    }
}

/// The indices, in increasing order, of the ticked tools.
pub open spec fn checked_indices(s: Seq<bool>) -> Seq<usize> {
    set_indices_upto(s, s.len() as int)
}

/// The texts of a list, separated by `sep`.
pub open spec fn join_texts(list: Seq<Seq<char>>, sep: Seq<char>) -> Seq<char>
    decreases list.len(),
{
    if list.len() == 0 {
        seq![]
    } else if list.len() == 1 {
        list[0]
    } else {
        join_texts(list.drop_last(), sep) + sep + list.last()
    }
}

pub open spec fn names_of(idx: Seq<usize>) -> Seq<Seq<char>> {
    idx.map_values(|i: usize| tool_name(i as int))
}

/// The log line announcing the installation of the selected tools.
pub open spec fn installing_text(idx: Seq<usize>) -> Seq<char> {
    "installing: "@ + join_texts(names_of(idx), ", "@)
}

pub const NO_TOOLS_TEXT: &'static str = "no tools selected";

/// `v` after the installation run of the ticked tools is announced.
pub open spec fn after_install_start(v: AppView) -> AppView {
    let idx = checked_indices(v.install_checked);
    if idx.len() == 0 {
        logged(v, entry(NO_TOOLS_TEXT@, Level::Error))
    } else {
        logged(v, entry(installing_text(idx), Level::Command))
    }
}

/// The log line reporting how one tool's installation went.
pub open spec fn result_entry(i: usize, r: Result<String, String>) -> LogEntry {
    match r {
        Ok(m) => entry("["@ + tool_name(i as int) + "] "@ + m@, Level::Success),
        Err(m) => entry("["@ + tool_name(i as int) + "] "@ + m@, Level::Error),
    }
}

/// `v` after the outcome of each installed tool is logged, in order, and the
/// installed tools are unticked.
pub open spec fn after_install_finish(
    v: AppView,
    idx: Seq<usize>,
    results: Seq<Result<String, String>>,
) -> AppView {
    AppView {
        log: v.log + Seq::new(idx.len(), |k: int| result_entry(idx[k], results[k])),
        install_checked: Seq::new(
            v.install_checked.len(),
            |j: int| v.install_checked[j] && !idx.contains(j as usize),
        ),
        ..v
    }
}

/// What is done to a link.
#[derive(Debug, Clone, Copy, PartialEq, Eq, Structural)]
pub enum LinkOp {
    Create,
    Remove,
}

/// The command line echoed before a link is made.
pub open spec fn link_command_text(s: SymlinkView) -> Seq<char> {
    "ln -s "@ + s.source + " "@ + s.target
}

/// The log line reporting how an operation on a link went.
pub open spec fn link_result_entry(s: SymlinkView, op: LinkOp, r: Result<(), String>) -> LogEntry {
    match r {
        Ok(_) => entry(
            (if op == LinkOp::Create {
                "created symlink: "@
            } else {
                "removed symlink: "@
            }) + s.name,
            Level::Success,
        ),
        Err(e) => entry(e@, Level::Error),
    }
}

/// The log line reporting how the editor ended.
pub open spec fn edit_entry(path: Seq<char>, outcome: RunOutcome) -> LogEntry {
    match outcome {
        RunOutcome::Success => entry("edited "@ + path, Level::Success),
        RunOutcome::Exited(c) => entry("editor exited with status "@ + code_text(c), Level::Error),
        RunOutcome::LaunchFailed(e) => entry("failed to launch editor: "@ + e@, Level::Error),
    }
}

impl App {
    pub open spec fn wf(&self) -> bool {
        app_wf(self@)
    }

    fn push_log(&mut self, line: LogLine)
        ensures
            final(self)@ == logged(old(self)@, line@),
    {
        let ghost e = line@;
        self.log.push(line);
        proof {
            assert(log_view(self.log@) =~= log_view(old(self).log@).push(e));
        }
    }

    fn list_len(&self) -> (r: usize)
        requires
            self.wf(),
        ensures
            r as int == list_len(self@),
    {
        match self.tab {
            Tab::Install => TOOL_COUNT,
            Tab::Symlinks => self.symlinks.len(),
            Tab::Configs => CONFIG_COUNT,
            Tab::Status => TOOL_COUNT,
        }
    }

    /// The cursor of the current tab.
    pub fn selected(&self) -> (r: Option<usize>)
        ensures
            r == cursor(self@),
    {
        match self.tab {
            Tab::Install => self.install_state,
            Tab::Symlinks => self.symlink_state,
            Tab::Configs => self.config_state,
            Tab::Status => self.status_state,
        }
    }

    fn move_cursor_to(&mut self, idx: usize) -> (eff: Effect)
        ensures
            (final(self)@, eff) == after_jump(old(self)@, idx),
    {
        match self.tab {
            Tab::Install => {
                self.install_state = Some(idx);
                Effect::Nothing
            },
            Tab::Symlinks => {
                self.symlink_state = Some(idx);
                Effect::Nothing
            },
            Tab::Configs => {
                self.config_state = Some(idx);
                Effect::LoadPreview(idx)
            },
            Tab::Status => {
                self.status_state = Some(idx);
                Effect::Nothing
            },
        }
    }

    fn move_cursor(&mut self, delta: i32) -> (eff: Effect)
        requires
            old(self).wf(),
            delta == 1 || delta == -1,
        ensures
            (final(self)@, eff) == after_move(old(self)@, delta as int),
    {
        let len = self.list_len();
        if len == 0 {
            return Effect::Nothing;
        }
        let current = match self.selected() {
            Some(c) => c,
            None => 0,
        };
        let n: usize = if delta < 0 {
            if current == 0 {
                len - 1
            } else {
                current - 1
            }
        } else if current + 1 >= len {
            0
        } else {
            current + 1
        };
        self.move_cursor_to(n)
    }

    fn set_all_checked(&mut self, value: bool)
        ensures
            final(self)@ == (AppView {
                install_checked: Seq::new(old(self).install_checked@.len(), |k: int| value),
                ..old(self)@
            }),
    {
        let n = self.install_checked.len();
        let mut i: usize = 0;
        while i < n
            invariant
                n == self.install_checked@.len(),
                n == old(self).install_checked@.len(),
                i <= n,
                forall|k: int| 0 <= k < i ==> self.install_checked@[k] == value,
                self@ == (AppView { install_checked: self.install_checked@, ..old(self)@ }),
            decreases n - i,
        {
            self.install_checked.set(i, value);
            i = i + 1;
        }
        proof {
            assert(self.install_checked@ =~= Seq::new(n as nat, |k: int| value));
        }
    }

    fn invert_checked(&mut self)
        ensures
            final(self)@ == (AppView {
                install_checked: Seq::new(
                    old(self).install_checked@.len(),
                    |k: int| !old(self).install_checked@[k],
                ),
                ..old(self)@
            }),
    {
        let n = self.install_checked.len();
        let mut i: usize = 0;
        while i < n
            invariant
                n == self.install_checked@.len(),
                n == old(self).install_checked@.len(),
                i <= n,
                forall|k: int| 0 <= k < i ==> self.install_checked@[k] == !old(self).install_checked@[k],
                forall|k: int| i <= k < n ==> self.install_checked@[k] == old(self).install_checked@[k],
                self@ == (AppView { install_checked: self.install_checked@, ..old(self)@ }),
            decreases n - i,
        {
            let b = self.install_checked[i];
            self.install_checked.set(i, !b);
            i = i + 1;
        }
        proof {
            assert(self.install_checked@ =~= Seq::new(
                n as nat,
                |k: int| !old(self).install_checked@[k],
            ));
        }
    }

    fn any_checked(&self) -> (r: bool)
        ensures
            r == exists|k: int| 0 <= k < self.install_checked@.len() && self.install_checked@[k],
    {
        let n = self.install_checked.len();
        let mut i: usize = 0;
        while i < n
            invariant
                n == self.install_checked@.len(),
                i <= n,
                forall|k: int| 0 <= k < i ==> !self.install_checked@[k],
            decreases n - i,
        {
            if self.install_checked[i] {
                return true;
            }
            i = i + 1;
        }
        false
    }

    fn install_key(&mut self, code: KeyCode)
        requires
            old(self).wf(),
        ensures
            final(self)@ == on_install_key(old(self)@, code),
    {
        match code {
            KeyCode::Char(' ') => {
                if let Some(i) = self.install_state {
                    let b = self.install_checked[i];
                    self.install_checked.set(i, !b);
                }
            },
            KeyCode::Enter => {
                if self.any_checked() {
                    self.pending = Some(PendingAction::RunSelectedInstalls);
                } else if let Some(i) = self.install_state {
                    self.install_checked.set(i, true);
                    self.pending = Some(PendingAction::RunSelectedInstalls);
                } else {
                    self.push_log(LogLine::error(owned(NO_TOOL_TEXT)));
                }
            },
            KeyCode::Char('a') => self.set_all_checked(true),
            KeyCode::Char('n') => self.set_all_checked(false),
            KeyCode::Char('i') => self.invert_checked(),
            _ => {},
        }
    }

    fn symlink_key(&mut self, code: KeyCode)
        ensures
            final(self)@ == on_symlink_key(old(self)@, code),
    {
        match code {
            KeyCode::Enter | KeyCode::Char('c') => {
                if let Some(i) = self.symlink_state {
                    self.pending = Some(PendingAction::CreateSymlink(i));
                }
            },
            KeyCode::Char('r') => {
                if let Some(i) = self.symlink_state {
                    self.pending = Some(PendingAction::RemoveSymlink(i));
                }
            },
            _ => {},
        }
    }

    fn config_key(&mut self, code: KeyCode)
        requires
            old(self).wf(),
        ensures
            final(self)@ == on_config_key(old(self)@, code),
    {
        match code {
            KeyCode::Enter | KeyCode::Char('e') => {
                if let Some(i) = self.config_state {
                    let cf = config_file(i);
                    self.pending = Some(PendingAction::EditConfig(path(&cf, self.dotfiles.as_str())));
                }
            },
            _ => {},
        }
    }

    fn status_key(&mut self, code: KeyCode)
        requires
            old(self).wf(),
        ensures
            final(self)@ == on_status_key(old(self)@, code),
    {
        if code == KeyCode::Enter {
            if let Some(i) = self.status_state {
                self.tab = Tab::Install;
                self.install_state = Some(i);
                self.install_checked.set(i, true);
                let t = tool(i);
                let msg = cat3("marked '", t.name, "' for install; press Enter on Install tab to run");
                self.push_log(LogLine::info(msg));
            }
        }
    }

    /// Reacts to a key that only the current tab gives a meaning to.
    pub fn handle_tab_key(&mut self, code: KeyCode)
        requires
            old(self).wf(),
        ensures
            final(self)@ == on_tab_key(old(self)@, code),
    {
        match self.tab {
            Tab::Install => self.install_key(code),
            Tab::Symlinks => self.symlink_key(code),
            Tab::Configs => self.config_key(code),
            Tab::Status => self.status_key(code),
        }
    }

    /// Reacts to a key press; returns the outside work the key needs at once
    /// (work that can wait is left in `pending`).
    pub fn handle_key(&mut self, key: Key) -> (eff: Effect)
        requires
            old(self).wf(),
        ensures
            (final(self)@, eff) == on_key(old(self)@, key),
            final(self).wf(),
    {
        proof {
            crate::app_laws::law_keys_keep_state_well_formed(self@, key);
        }
        self.react(key)
    }

    fn react(&mut self, key: Key) -> (eff: Effect)
        requires
            old(self).wf(),
        ensures
            (final(self)@, eff) == on_key(old(self)@, key),
    {
        if key.control {
            if key.code == KeyCode::Char('c') {
                self.should_quit = true;
            }
            return Effect::Nothing;
        }
        match key.code {
            KeyCode::Char('q') => {
                self.should_quit = true;
                Effect::Nothing
            },
            KeyCode::Tab | KeyCode::Char('l') => {
                self.tab = self.tab.next();
                Effect::Nothing
            },
            KeyCode::BackTab | KeyCode::Char('h') => {
                self.tab = self.tab.prev();
                Effect::Nothing
            },
            KeyCode::Char('1') => {
                self.tab = Tab::Install;
                Effect::Nothing
            },
            KeyCode::Char('2') => {
                self.tab = Tab::Symlinks;
                Effect::Nothing
            },
            KeyCode::Char('3') => {
                self.tab = Tab::Configs;
                Effect::Nothing
            },
            KeyCode::Char('4') => {
                self.tab = Tab::Status;
                Effect::Nothing
            },
            KeyCode::Down | KeyCode::Char('j') => self.move_cursor(1),
            KeyCode::Up | KeyCode::Char('k') => self.move_cursor(-1),
            KeyCode::Home | KeyCode::Char('g') => self.move_cursor_to(0),
            KeyCode::End | KeyCode::Char('G') => {
                let len = self.list_len();
                let last = if len > 0 {
                    len - 1
                } else {
                    0
                };
                self.move_cursor_to(last)
            },
            KeyCode::Char('r') => {
                if self.tab == Tab::Status {
                    self.push_log(LogLine::info(owned(REFRESHING_TEXT)));
                    self.push_log(LogLine::success(owned(REFRESHED_TEXT)));
                    Effect::Refresh
                } else if self.tab == Tab::Symlinks {
                    self.symlink_key(key.code);
                    Effect::Nothing
                } else {
                    self.pending = Some(PendingAction::RefreshStatus);
                    Effect::Nothing
                }
            },
            KeyCode::Char('?') => {
                self.push_log(LogLine::info(owned(HELP_TEXT)));
                Effect::Nothing
            },
            KeyCode::Char('R') => {
                self.push_log(LogLine::success(owned(REFRESHED_TEXT)));
                Effect::Refresh
            },
            _ => {
                self.handle_tab_key(key.code);
                Effect::Nothing
            },
        }
    }

    /// The state at start-up. `status` and `link_states` are the probes of
    /// every tool and of every link of [`definitions`], and `first_config`
    /// what reading the first configuration file gave.
    pub fn new(
        home: &str,
        dotfiles: &str,
        distro_name: &str,
        status: Vec<bool>,
        link_states: Vec<LinkState>,
        first_config: Result<String, String>,
    ) -> (r: App)
        requires
            status@.len() == TOOL_COUNT,
            link_states@.len() == 4,
        ensures
            r@ == initial_view(
                home@,
                dotfiles@,
                distro_name@,
                status@,
                states_view(link_states@),
                first_config,
            ),
            r.wf(),
    {
        let mut line = cat("dotfiles-tui ready. OS: ", distro_name);
        line.append(". Use Tab to switch, ? for help, q to quit.");
        let mut checked: Vec<bool> = Vec::new();
        let mut k: usize = 0;
        while k < TOOL_COUNT
            invariant
                k <= TOOL_COUNT,
                checked@ == Seq::new(k as nat, |j: int| false),
            decreases TOOL_COUNT - k,
        {
            checked.push(false);
            k = k + 1;
            proof {
                assert(checked@ =~= Seq::new(k as nat, |j: int| false));
            }
        }
        let symlinks = definitions(home, dotfiles);
        let mut app = App {
            tab: Tab::Install,
            should_quit: false,
            pending: None,
            install_state: Some(0),
            install_checked: checked,
            status,
            symlinks,
            symlink_state: Some(0),
            symlink_states: link_states,
            config_state: Some(0),
            config_preview: String::new(),
            config_preview_path: None,
            status_state: Some(0),
            log: vec![LogLine::info(line)],
            dotfiles: owned(dotfiles),
        };
        proof {
            assert(log_view(app.log@) =~= seq![entry(ready_text(distro_name@), Level::Info)]);
        }
        app.load_config_preview(0, first_config);
        app
    }

    /// Takes in fresh probes of every tool and every link.
    pub fn refresh_status(&mut self, status: Vec<bool>, link_states: Vec<LinkState>)
        requires
            status@.len() == old(self).status@.len(),
            link_states@.len() == old(self).symlink_states@.len(),
        ensures
            final(self)@ == (AppView {
                status: status@,
                symlink_states: states_view(link_states@),
                ..old(self)@
            }),
            old(self).wf() ==> final(self).wf(),
    {
        self.status = status;
        self.symlink_states = link_states;
    }

    /// Shows the `idx`-th configuration file in the preview pane, given what
    /// reading it gave (see [`crate::config::read`]).
    pub fn load_config_preview(&mut self, idx: usize, content: Result<String, String>)
        ensures
            final(self)@ == with_preview(old(self)@, idx as int, content),
            old(self).wf() ==> final(self).wf(),
    {
        if idx < CONFIG_COUNT {
            let cf = config_file(idx);
            self.config_preview_path = Some(owned(cf.rel));
            self.config_preview = match content {
                Ok(c) => c,
                Err(e) => cat3("(error: ", e.as_str(), ")"),
            };
        }
    }

    /// Logs that a refresh asked for with `R` or `r` has been done.
    pub fn note_refreshed(&mut self)
        ensures
            final(self)@ == logged(old(self)@, entry(REFRESHED_TEXT@, Level::Success)),
            old(self).wf() ==> final(self).wf(),
    {
        self.push_log(LogLine::success(owned(REFRESHED_TEXT)));
    }

    /// Starts an installation run: returns the ticked tools in catalogue
    /// order and logs which they are (or that none is ticked).
    pub fn begin_installs(&mut self) -> (sel: Vec<usize>)
        requires
            old(self).wf(),
        ensures
            sel@ == checked_indices(old(self).install_checked@),
            final(self)@ == after_install_start(old(self)@),
            old(self).wf() ==> final(self).wf(),
    {
        let mut sel: Vec<usize> = Vec::new();
        let mut names = String::new();
        let n = self.install_checked.len();
        let mut i: usize = 0;
        while i < n
            invariant
                n == self.install_checked@.len(),
                n == TOOL_COUNT,
                i <= n,
                sel@ == set_indices_upto(self.install_checked@, i as int),
                names@ == join_texts(names_of(sel@), ", "@),
                forall|k: int| 0 <= k < sel@.len() ==> sel@[k] < i,
            decreases n - i,
        {
            if self.install_checked[i] {
                let ghost before = sel@;
                let t = tool(i);
                if sel.len() > 0 {
                    names.append(", ");
                }
                names.append(t.name);
                sel.push(i);
                proof {
                    assert(names_of(sel@).drop_last() =~= names_of(before));
                    assert(names_of(sel@).last() == tool_name(i as int));
                    if before.len() == 0 {
                        assert(names_of(sel@) =~= seq![tool_name(i as int)]);
                    }
                }
            }
            i = i + 1;
        }
        if sel.len() == 0 {
            self.push_log(LogLine::error(owned(NO_TOOLS_TEXT)));
        } else {
            let line = cat("installing: ", names.as_str());
            self.push_log(LogLine::command(line));
        }
        sel
    }

    /// Ends an installation run: logs each tool's outcome, in the order run,
    /// and unticks the tools that were run.
    pub fn finish_installs(&mut self, selected: &Vec<usize>, results: &Vec<Result<String, String>>)
        requires
            selected@.len() == results@.len(),
            forall|k: int| 0 <= k < selected@.len() ==> selected@[k] < TOOL_COUNT,
            old(self).install_checked@.len() == TOOL_COUNT,
        ensures
            final(self)@ == after_install_finish(old(self)@, selected@, results@),
            old(self).wf() ==> final(self).wf(),
    {
        let n = selected.len();
        let mut k: usize = 0;
        while k < n
            invariant
                n == selected@.len(),
                n == results@.len(),
                k <= n,
                forall|j: int| 0 <= j < selected@.len() ==> selected@[j] < TOOL_COUNT,
                self@ == (AppView {
                    log: old(self)@.log + Seq::new(
                        k as nat,
                        |j: int| result_entry(selected@[j], results@[j]),
                    ),
                    ..old(self)@
                }),
            decreases n - k,
        {
            let i = selected[k];
            let t = tool(i);
            let mut text = cat3("[", t.name, "] ");
            let line = match &results[k] {
                Ok(m) => {
                    text.append(m.as_str());
                    LogLine::success(text)
                },
                Err(m) => {
                    text.append(m.as_str());
                    LogLine::error(text)
                },
            };
            self.push_log(line);
            k = k + 1;
            proof {
                assert(self@.log =~= old(self)@.log + Seq::new(
                    k as nat,
                    |j: int| result_entry(selected@[j], results@[j]),
                ));
            }
        }
        let ghost logged_view = self@;
        let mut k: usize = 0;
        while k < n
            invariant
                n == selected@.len(),
                k <= n,
                forall|j: int| 0 <= j < selected@.len() ==> selected@[j] < TOOL_COUNT,
                self.install_checked@.len() == TOOL_COUNT,
                old(self).install_checked@.len() == TOOL_COUNT,
                forall|j: int|
                    0 <= j < TOOL_COUNT ==> #[trigger] self.install_checked@[j] == (
                    old(self).install_checked@[j] && !selected@.take(k as int).contains(j as usize)),
                self@ == (AppView { install_checked: self.install_checked@, ..logged_view }),
            decreases n - k,
        {
            let i = selected[k];
            self.install_checked.set(i, false);
            k = k + 1;
            proof {
                assert forall|j: int| 0 <= j < TOOL_COUNT implies #[trigger] self.install_checked@[j] == (
                    old(self).install_checked@[j] && !selected@.take(k as int).contains(j as usize)) by {
                    assert(selected@.take(k as int) =~= selected@.take(k - 1).push(i));
                    if j == i as int {
                        assert(selected@.take(k as int)[k - 1] == i);
                        assert(selected@.take(k as int).contains(i));
                    } else {
                        assert(selected@.take(k as int).contains(j as usize) == selected@.take(k - 1).contains(j as usize));
                    }
                }
            }
        }
        proof {
            assert(selected@.take(n as int) =~= selected@);
            assert(self.install_checked@ =~= Seq::new(
                old(self).install_checked@.len(),
                |j: int| old(self).install_checked@[j] && !selected@.contains(j as usize),
            ));
        }
    }

    /// Logs the command line of the link about to be made.
    pub fn note_link_command(&mut self, i: usize)
        requires
            i < old(self).symlinks@.len(),
        ensures
            final(self)@ == logged(
                old(self)@,
                entry(link_command_text(old(self)@.symlinks[i as int]), Level::Command),
            ),
            old(self).wf() ==> final(self).wf(),
    {
        let s = &self.symlinks[i];
        let mut line = cat3("ln -s ", s.source.as_str(), " ");
        line.append(s.target.as_str());
        self.push_log(LogLine::command(line));
    }

    /// Logs how making or removing the `i`-th link went.
    pub fn note_link_result(&mut self, i: usize, op: LinkOp, result: Result<(), String>)
        requires
            i < old(self).symlinks@.len(),
        ensures
            final(self)@ == logged(
                old(self)@,
                link_result_entry(old(self)@.symlinks[i as int], op, result),
            ),
            old(self).wf() ==> final(self).wf(),
    {
        let name = self.symlinks[i].name;
        let line = match result {
            Ok(_) => {
                let head = if op == LinkOp::Create {
                    "created symlink: "
                } else {
                    "removed symlink: "
                };
                LogLine::success(cat(head, name))
            },
            Err(e) => LogLine::error(e),
        };
        self.push_log(line);
    }

    /// The editor command for a file: the `EDITOR` setting (`editor_env`)
    /// when there is one, else `vi`, with the file as its only argument.
    pub fn editor_for(editor_env: Option<String>, path: &str) -> (r: Invocation)
        ensures
            r@ == (InvocationView {
                program: match editor_env {
                    Some(e) => e@,
                    None => "vi"@,
                },
                args: seq![path@],
            }),
    {
        let program = match editor_env {
            Some(e) => e,
            None => owned("vi"),
        };
        let args = vec![owned(path)];
        proof {
            assert(texts_view(args@) =~= seq![path@]);
        }
        Invocation { program, args }
    }

    /// Logs how editing `path` went; when the editor succeeded, returns the
    /// configuration file whose preview is to be loaded again.
    pub fn finish_edit(&mut self, path: &str, outcome: RunOutcome) -> (reload: Option<usize>)
        ensures
            final(self)@ == logged(old(self)@, edit_entry(path@, outcome)),
            reload == (if outcome == RunOutcome::Success {
                old(self).config_state
            } else {
                None
            }),
            old(self).wf() ==> final(self).wf(),
    {
        match outcome {
            RunOutcome::Success => {
                self.push_log(LogLine::success(cat("edited ", path)));
                self.config_state
            },
            RunOutcome::Exited(c) => {
                let t = code_to_text(c);
                self.push_log(LogLine::error(cat("editor exited with status ", t.as_str())));
                None
            },
            RunOutcome::LaunchFailed(e) => {
                self.push_log(LogLine::error(cat("failed to launch editor: ", e.as_str())));
                None
            },
        }
    }
}

} // verus!
