use dotfiles_tui::app::{App, Effect, Key, KeyCode, Level, LogLine, PendingAction, HELP_TEXT};
use dotfiles_tui::symlink::LinkState;
use dotfiles_tui::tab::Tab;
use dotfiles_tui::tools::TOOL_COUNT;

fn key(c: char) -> Key {
    Key { code: KeyCode::Char(c), control: false }
}

fn code(c: KeyCode) -> Key {
    Key { code: c, control: false }
}

fn fresh() -> App {
    App::new(
        "/home/u",
        "/home/u/dotfiles",
        "Debian GNU/Linux 12 (bookworm)",
        vec![false; TOOL_COUNT],
        vec![LinkState::Missing; 4],
        Ok("export EDITOR=nvim\n".to_string()),
    )
}

#[test]
fn new_app_starts_on_install_with_greeting() {
    let app = fresh();
    assert_eq!(app.tab, Tab::Install);
    assert!(!app.should_quit);
    assert!(app.pending.is_none());
    assert_eq!(app.install_state, Some(0));
    assert_eq!(app.symlink_state, Some(0));
    assert_eq!(app.config_state, Some(0));
    assert_eq!(app.status_state, Some(0));
    assert_eq!(app.install_checked, vec![false; TOOL_COUNT]);
    assert_eq!(app.symlinks.len(), 4);
    assert_eq!(app.config_preview_path.as_deref(), Some(".zshrc"));
    assert_eq!(app.config_preview, "export EDITOR=nvim\n");
    assert_eq!(app.log.len(), 1);
    assert_eq!(
        app.log[0].text,
        "dotfiles-tui ready. OS: Debian GNU/Linux 12 (bookworm). Use Tab to switch, ? for help, q to quit."
    );
    assert_eq!(app.log[0].level, Level::Info);
}

#[test]
fn new_app_shows_read_errors_in_preview() {
    let app = App::new(
        "/h",
        "/d",
        "X",
        vec![false; TOOL_COUNT],
        vec![LinkState::Missing; 4],
        Err("read .zshrc: No such file or directory (os error 2)".to_string()),
    );
    assert_eq!(app.config_preview, "(error: read .zshrc: No such file or directory (os error 2))");
}

#[test]
fn log_line_constructors_set_levels() {
    assert_eq!(LogLine::info("a".to_string()).level, Level::Info);
    assert_eq!(LogLine::command("b".to_string()).level, Level::Command);
    assert_eq!(LogLine::success("c".to_string()).level, Level::Success);
    let e = LogLine::error("d".to_string());
    assert_eq!(e.level, Level::Error);
    assert_eq!(e.text, "d");
}

#[test]
fn q_and_ctrl_c_quit() {
    let mut app = fresh();
    assert_eq!(app.handle_key(key('q')), Effect::Nothing);
    assert!(app.should_quit);
    let mut app = fresh();
    app.handle_key(Key { code: KeyCode::Char('c'), control: true });
    assert!(app.should_quit);
}

#[test]
fn other_control_keys_do_nothing() {
    let mut app = fresh();
    app.handle_key(Key { code: KeyCode::Char('q'), control: true });
    app.handle_key(Key { code: KeyCode::Tab, control: true });
    assert!(!app.should_quit);
    assert_eq!(app.tab, Tab::Install);
    assert_eq!(app.log.len(), 1);
}

#[test]
fn tab_keys_switch_screens() {
    let mut app = fresh();
    app.handle_key(code(KeyCode::Tab));
    assert_eq!(app.tab, Tab::Symlinks);
    app.handle_key(key('l'));
    assert_eq!(app.tab, Tab::Configs);
    app.handle_key(code(KeyCode::BackTab));
    assert_eq!(app.tab, Tab::Symlinks);
    app.handle_key(key('h'));
    assert_eq!(app.tab, Tab::Install);
    app.handle_key(key('h'));
    assert_eq!(app.tab, Tab::Status);
    app.handle_key(key('1'));
    assert_eq!(app.tab, Tab::Install);
    app.handle_key(key('2'));
    assert_eq!(app.tab, Tab::Symlinks);
    app.handle_key(key('3'));
    assert_eq!(app.tab, Tab::Configs);
    app.handle_key(key('4'));
    assert_eq!(app.tab, Tab::Status);
}

#[test]
fn cursor_wraps_at_both_ends() {
    let mut app = fresh();
    app.handle_key(key('k'));
    assert_eq!(app.install_state, Some(TOOL_COUNT - 1));
    app.handle_key(key('j'));
    assert_eq!(app.install_state, Some(0));
    app.handle_key(code(KeyCode::Down));
    app.handle_key(code(KeyCode::Down));
    app.handle_key(code(KeyCode::Up));
    assert_eq!(app.install_state, Some(1));
    app.handle_key(code(KeyCode::End));
    assert_eq!(app.install_state, Some(TOOL_COUNT - 1));
    app.handle_key(key('g'));
    assert_eq!(app.install_state, Some(0));
    app.handle_key(key('G'));
    assert_eq!(app.install_state, Some(TOOL_COUNT - 1));
    app.handle_key(code(KeyCode::Home));
    assert_eq!(app.install_state, Some(0));
}

#[test]
fn symlink_cursor_wraps_over_four_links() {
    let mut app = fresh();
    app.handle_key(key('2'));
    app.handle_key(key('k'));
    assert_eq!(app.symlink_state, Some(3));
    app.handle_key(key('j'));
    assert_eq!(app.symlink_state, Some(0));
}

#[test]
fn moving_on_configs_asks_for_a_preview() {
    let mut app = fresh();
    app.handle_key(key('3'));
    assert_eq!(app.handle_key(key('j')), Effect::LoadPreview(1));
    assert_eq!(app.config_state, Some(1));
    assert_eq!(app.handle_key(key('k')), Effect::LoadPreview(0));
    assert_eq!(app.handle_key(key('k')), Effect::LoadPreview(11));
    assert_eq!(app.handle_key(key('g')), Effect::LoadPreview(0));
    app.load_config_preview(1, Ok("set -g mouse on".to_string()));
    assert_eq!(app.config_preview_path.as_deref(), Some(".tmux.conf"));
    assert_eq!(app.config_preview, "set -g mouse on");
    app.load_config_preview(99, Ok("ignored".to_string()));
    assert_eq!(app.config_preview, "set -g mouse on");
}

#[test]
fn space_toggles_and_a_n_i_bulk_edit() {
    let mut app = fresh();
    app.handle_key(key(' '));
    assert!(app.install_checked[0]);
    app.handle_key(key(' '));
    assert!(!app.install_checked[0]);
    app.handle_key(key('a'));
    assert!(app.install_checked.iter().all(|&b| b));
    app.handle_key(key('n'));
    assert!(app.install_checked.iter().all(|&b| !b));
    app.handle_key(key('j'));
    app.handle_key(key(' '));
    app.handle_key(key('i'));
    let expected: Vec<bool> = (0..TOOL_COUNT).map(|i| i != 1).collect();
    assert_eq!(app.install_checked, expected);
    app.handle_key(key('i'));
    let expected: Vec<bool> = (0..TOOL_COUNT).map(|i| i == 1).collect();
    assert_eq!(app.install_checked, expected);
}

#[test]
fn enter_on_install_ticks_cursor_when_nothing_ticked() {
    let mut app = fresh();
    app.handle_key(key('j'));
    app.handle_key(code(KeyCode::Enter));
    assert!(matches!(app.pending, Some(PendingAction::RunSelectedInstalls)));
    assert!(app.install_checked[1]);
    assert_eq!(app.install_checked.iter().filter(|&&b| b).count(), 1);
}

#[test]
fn enter_on_install_keeps_existing_ticks() {
    let mut app = fresh();
    app.handle_key(key('G'));
    app.handle_key(key(' '));
    app.handle_key(key('g'));
    app.handle_key(code(KeyCode::Enter));
    assert!(matches!(app.pending, Some(PendingAction::RunSelectedInstalls)));
    assert!(!app.install_checked[0]);
    assert!(app.install_checked[TOOL_COUNT - 1]);
}

#[test]
fn enter_without_cursor_logs_error() {
    let mut app = fresh();
    app.install_state = None;
    app.handle_key(code(KeyCode::Enter));
    assert!(app.pending.is_none());
    let last = app.log.last().unwrap();
    assert_eq!(last.text, "no tool selected");
    assert_eq!(last.level, Level::Error);
}

#[test]
fn symlink_tab_queues_creation() {
    let mut app = fresh();
    app.handle_key(key('2'));
    app.handle_key(key('j'));
    app.handle_key(code(KeyCode::Enter));
    assert!(matches!(app.pending, Some(PendingAction::CreateSymlink(1))));
    app.pending = None;
    app.handle_key(key('c'));
    assert!(matches!(app.pending, Some(PendingAction::CreateSymlink(1))));
}

#[test]
fn r_refreshes_on_status_removes_on_symlinks_and_queues_elsewhere() {
    let mut app = fresh();
    app.handle_key(key('4'));
    assert_eq!(app.handle_key(key('r')), Effect::Refresh);
    let n = app.log.len();
    assert_eq!(app.log[n - 2].text, "refreshing status...");
    assert_eq!(app.log[n - 2].level, Level::Info);
    assert_eq!(app.log[n - 1].text, "status refreshed");
    assert_eq!(app.log[n - 1].level, Level::Success);

    app.handle_key(key('2'));
    app.handle_key(key('j'));
    let n = app.log.len();
    assert_eq!(app.handle_key(key('r')), Effect::Nothing);
    assert!(matches!(app.pending, Some(PendingAction::RemoveSymlink(1))));
    assert_eq!(app.log.len(), n);
    assert_eq!(app.tab, Tab::Symlinks);

    app.handle_key(key('1'));
    assert_eq!(app.handle_key(key('r')), Effect::Nothing);
    assert!(matches!(app.pending, Some(PendingAction::RefreshStatus)));
}

#[test]
fn capital_r_refreshes_and_question_mark_helps() {
    let mut app = fresh();
    assert_eq!(app.handle_key(key('R')), Effect::Refresh);
    assert_eq!(app.log.last().unwrap().text, "status refreshed");
    app.handle_key(key('?'));
    assert_eq!(app.log.last().unwrap().text, HELP_TEXT);
    assert!(HELP_TEXT.starts_with("Keys: Tab/1-4 switch tabs | j/k move"));
    assert!(HELP_TEXT.ends_with("| R refresh | q quit"));
}

#[test]
fn configs_enter_queues_editing_the_file() {
    let mut app = fresh();
    app.handle_key(key('3'));
    app.handle_key(key('j'));
    app.handle_key(key('e'));
    match &app.pending {
        Some(PendingAction::EditConfig(p)) => assert_eq!(p, "/home/u/dotfiles/.tmux.conf"),
        other => panic!("unexpected {:?}", other),
    }
}

#[test]
fn status_enter_marks_tool_for_install() {
    let mut app = fresh();
    app.handle_key(key('4'));
    app.handle_key(key('j'));
    app.handle_key(key('j'));
    app.handle_key(code(KeyCode::Enter));
    assert_eq!(app.tab, Tab::Install);
    assert_eq!(app.install_state, Some(2));
    assert!(app.install_checked[2]);
    let last = app.log.last().unwrap();
    assert_eq!(last.text, "marked 'nvm' for install; press Enter on Install tab to run");
    assert_eq!(last.level, Level::Info);
}

#[test]
fn unknown_keys_change_nothing() {
    let mut app = fresh();
    assert_eq!(app.handle_key(code(KeyCode::Other)), Effect::Nothing);
    assert_eq!(app.handle_key(key('z')), Effect::Nothing);
    assert_eq!(app.log.len(), 1);
    assert!(app.pending.is_none());
}

#[test]
fn refresh_status_takes_new_probes() {
    let mut app = fresh();
    let mut st = vec![false; TOOL_COUNT];
    st[3] = true;
    app.refresh_status(st.clone(), vec![LinkState::Correct, LinkState::NotALink, LinkState::Missing, LinkState::WrongTarget("/x".to_string())]);
    assert_eq!(app.status, st);
    assert_eq!(app.symlink_states[0], LinkState::Correct);
    assert_eq!(app.symlink_states[3], LinkState::WrongTarget("/x".to_string()));
}

#[test]
fn keys_keep_probes_and_only_grow_the_log() {
    let mut app = fresh();
    let mut st = vec![false; TOOL_COUNT];
    st[0] = true;
    app.refresh_status(st.clone(), vec![LinkState::Correct; 4]);
    let keys = [
        key('r'), key('2'), key('r'), key('?'), key('R'), key('3'), key('j'), key('4'),
        code(KeyCode::Enter), key('a'), key('i'), code(KeyCode::Tab), key('q'),
    ];
    for k in keys {
        let before: Vec<String> = app.log.iter().map(|l| l.text.clone()).collect();
        app.handle_key(k);
        assert_eq!(app.status, st);
        assert_eq!(app.symlink_states, vec![LinkState::Correct; 4]);
        assert_eq!(app.dotfiles, "/home/u/dotfiles");
        assert!(app.log.len() >= before.len() && app.log.len() <= before.len() + 2);
        for (i, t) in before.iter().enumerate() {
            assert_eq!(&app.log[i].text, t);
        }
    }
}

#[test]
fn tab_key_invert_flips_every_tick_and_twice_restores() {
    let mut app = fresh();
    app.handle_key(key('j'));
    app.handle_key(key(' '));
    let before = app.install_checked.clone();
    app.handle_tab_key(KeyCode::Char('i'));
    assert_eq!(app.install_checked.len(), before.len());
    for j in 0..before.len() {
        assert_eq!(app.install_checked[j], !before[j]);
    }
    assert_eq!(app.tab, Tab::Install);
    assert!(app.pending.is_none());
    app.handle_tab_key(KeyCode::Char('i'));
    assert_eq!(app.install_checked, before);
}
