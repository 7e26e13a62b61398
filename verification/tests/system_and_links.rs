use dotfiles_tui::app::{App, Level, LinkOp};
use dotfiles_tui::config::{config_file, path, read, CONFIG_COUNT};
use dotfiles_tui::status::{
    command_exists, detect_os, distro_name, dotfiles_dir, home_dir, split_lines, split_words,
    Distro,
};
use dotfiles_tui::symlink::{
    definitions, link_error, mkdir_error, must_clear, pretty, remove_check, remove_error,
    source_str, state_of, target_str, LinkState, TargetProbe,
};
use dotfiles_tui::tab::Tab;
use dotfiles_tui::tools::{RunOutcome, TOOL_COUNT};
use dotfiles_tui::view::{
    check_box, help_hint, install_title, level_tone, link_label, preview_title, presence_mark,
    status_label, status_title, visible_log, Tone, GLOBAL_HINT,
};

const UBUNTU: &str = "PRETTY_NAME=\"Ubuntu 24.04 LTS\"\nNAME=\"Ubuntu\"\nID=ubuntu\nID_LIKE=debian\n";

#[test]
fn detects_systems_from_id() {
    assert_eq!(detect_os(false, UBUNTU), Distro::Ubuntu);
    assert_eq!(detect_os(false, "ID=debian\n"), Distro::Debian);
    assert_eq!(detect_os(false, "ID=\"opensuse-tumbleweed\"\n"), Distro::OpenSuse);
    assert_eq!(detect_os(false, "ID=suse\n"), Distro::OpenSuse);
    assert_eq!(detect_os(false, "ID=fedora\r\nVERSION_ID=40\r\n"), Distro::Fedora);
    assert_eq!(detect_os(false, "ID=archlinux"), Distro::Arch);
    assert_eq!(detect_os(false, "ID=arch\n"), Distro::Arch);
}

#[test]
fn falls_back_on_id_like_words() {
    assert_eq!(detect_os(false, "ID=pop\nID_LIKE=\"ubuntu debian\"\n"), Distro::Ubuntu);
    assert_eq!(detect_os(false, "ID=linuxmint\nID_LIKE=\"  foo   debian \"\n"), Distro::Debian);
    assert_eq!(detect_os(false, "ID=rocky\nID_LIKE=\"rhel centos fedora\"\n"), Distro::Fedora);
    assert_eq!(detect_os(false, "ID=manjaro\nID_LIKE=arch\n"), Distro::Arch);
    assert_eq!(detect_os(false, "ID=sles-sap\nID_LIKE=\"opensuse-leap\"\n"), Distro::OpenSuse);
    assert_eq!(detect_os(false, "ID=gentoo\n"), Distro::Other);
    assert_eq!(detect_os(false, ""), Distro::Other);
}

#[test]
fn last_id_line_wins_and_macos_overrides() {
    assert_eq!(detect_os(false, "ID=fedora\nID=debian\n"), Distro::Debian);
    assert_eq!(detect_os(true, UBUNTU), Distro::Macos);
    assert_eq!(detect_os(false, "ID_X=ubuntu\n"), Distro::Other);
}

#[test]
fn distro_name_prefers_pretty_name() {
    assert_eq!(distro_name(false, UBUNTU), "Ubuntu 24.04 LTS");
    assert_eq!(distro_name(false, "PRETTY_NAME=A\nPRETTY_NAME=B\n"), "A");
    assert_eq!(distro_name(false, "ID=fedora\n"), "Fedora Linux");
    assert_eq!(distro_name(false, "ID=debian\n"), "Debian GNU/Linux");
    assert_eq!(distro_name(false, "ID=opensuse\n"), "openSUSE Tumbleweed");
    assert_eq!(distro_name(false, "ID=arch\n"), "Arch Linux");
    assert_eq!(distro_name(false, "ID=ubuntu\n"), "Ubuntu");
    assert_eq!(distro_name(true, ""), "macOS");
    assert_eq!(distro_name(false, ""), "Unknown");
}

#[test]
fn lines_and_words_match_std() {
    for s in ["", "a", "a\n", "a\n\n", "\n", "a\r\nb\r\n", "a\r", "x\ny\rz\n\r\n"] {
        let ours = split_lines(s);
        let theirs: Vec<String> = s.lines().map(|l| l.to_string()).collect();
        assert_eq!(ours, theirs, "lines of {:?}", s);
    }
    for s in ["", "  ", "a", " a  b\tc\n", "ubuntu debian", "\u{2003}x\u{3000}y"] {
        let ours = split_words(s);
        let theirs: Vec<String> = s.split_whitespace().map(|l| l.to_string()).collect();
        assert_eq!(ours, theirs, "words of {:?}", s);
    }
}

#[test]
fn machine_facts() {
    let inv = command_exists("rg");
    assert_eq!(inv.program, "sh");
    assert_eq!(inv.args, vec!["-c".to_string(), "command -v rg >/dev/null 2>&1".to_string()]);
    assert_eq!(home_dir(Some("/home/u".into())), "/home/u");
    assert_eq!(home_dir(None), "/");
    assert_eq!(dotfiles_dir(Some("/x".into()), Some("/y".into()), "/h"), "/x");
    assert_eq!(dotfiles_dir(None, Some("/y".into()), "/h"), "/y");
    assert_eq!(dotfiles_dir(None, None, "/h"), "/h/dotfiles");
}

#[test]
fn config_files_and_paths() {
    assert_eq!(config_file(0).name, ".zshrc");
    assert_eq!(config_file(CONFIG_COUNT - 1).rel, "tmux-grid.sh");
    assert_eq!(config_file(5).name, "light-colors.zsh-theme");
    assert_eq!(path(&config_file(2), "/home/u/dotfiles"), "/home/u/dotfiles/install.sh");
    assert_eq!(read(&config_file(0), Ok("x".into())), Ok("x".to_string()));
    assert_eq!(
        read(&config_file(1), Err("permission denied".into())),
        Err("read .tmux.conf: permission denied".to_string())
    );
}

#[test]
fn link_definitions_point_home_and_repo() {
    let d = definitions("/home/u", "/home/u/dotfiles");
    assert_eq!(d.len(), 4);
    assert_eq!(d[0].name, "nvim config");
    assert_eq!(d[0].source, "/home/u/.config/nvim");
    assert_eq!(d[0].target, "/home/u/dotfiles/nvim");
    assert_eq!(d[1].source, "/home/u/dotfiles/.zshrc");
    assert_eq!(d[1].target, "/home/u/.zshrc");
    assert_eq!(d[3].target, "/home/u/.oh-my-zsh/themes/light-colors.zsh-theme");
}

#[test]
fn paths_are_shown_relative_to_home() {
    let d = definitions("/home/u", "/srv/dotfiles");
    assert_eq!(target_str(&d[1], "/home/u"), "~/.zshrc");
    assert_eq!(source_str(&d[1], "/home/u"), "/srv/dotfiles/.zshrc");
    assert_eq!(target_str(&d[3], "/home/u/"), "~/.oh-my-zsh/themes/light-colors.zsh-theme");
    assert_eq!(target_str(&d[1], "/home/us"), "/home/u/.zshrc");
    assert_eq!(pretty("a/b", "/x/a/b"), "~/a/b");
    assert_eq!(pretty("/x/a/b", "/x/a/b"), "/x/a/b");
    assert_eq!(pretty("/x//a", "/x/a"), "/x/a");
}

#[test]
fn link_states_from_probes() {
    let d = definitions("/home/u", "/srv/df");
    assert_eq!(state_of(&d[1], TargetProbe::Absent), LinkState::Missing);
    assert_eq!(state_of(&d[1], TargetProbe::Other), LinkState::NotALink);
    assert_eq!(state_of(&d[1], TargetProbe::Link(None)), LinkState::Missing);
    assert_eq!(state_of(&d[1], TargetProbe::Link(Some("/srv/df/.zshrc".into()))), LinkState::Correct);
    assert_eq!(state_of(&d[1], TargetProbe::Link(Some("/srv/df//.zshrc".into()))), LinkState::Correct);
    assert_eq!(
        state_of(&d[1], TargetProbe::Link(Some("/elsewhere".into()))),
        LinkState::WrongTarget("/elsewhere".into())
    );
}

#[test]
fn removal_refuses_anything_but_links() {
    let d = definitions("/home/u", "/srv/df");
    assert_eq!(remove_check(&d[1], &TargetProbe::Link(None)), Ok(()));
    assert_eq!(
        remove_check(&d[1], &TargetProbe::Other),
        Err("/home/u/.zshrc exists but is not a symlink (refusing to remove)".to_string())
    );
    assert_eq!(remove_check(&d[1], &TargetProbe::Absent), Err("/home/u/.zshrc does not exist".to_string()));
    assert!(must_clear(true, false));
    assert!(must_clear(false, true));
    assert!(!must_clear(false, false));
    assert_eq!(mkdir_error("/home/u/.oh-my-zsh/themes", "denied"), "mkdir /home/u/.oh-my-zsh/themes: denied");
    assert_eq!(remove_error(&d[1], "busy"), "remove /home/u/.zshrc: busy");
    assert_eq!(link_error(&d[1], "exists"), "symlink /home/u/.zshrc -> /srv/df/.zshrc: exists");
}

fn app() -> App {
    App::new("/home/u", "/srv/df", "X", vec![false; TOOL_COUNT], vec![LinkState::Missing; 4], Ok(String::new()))
}

#[test]
fn link_actions_are_logged() {
    let mut a = app();
    a.note_link_command(1);
    assert_eq!(a.log.last().unwrap().text, "ln -s /srv/df/.zshrc /home/u/.zshrc");
    assert_eq!(a.log.last().unwrap().level, Level::Command);
    a.note_link_result(1, LinkOp::Create, Ok(()));
    assert_eq!(a.log.last().unwrap().text, "created symlink: .zshrc");
    assert_eq!(a.log.last().unwrap().level, Level::Success);
    a.note_link_result(2, LinkOp::Remove, Ok(()));
    assert_eq!(a.log.last().unwrap().text, "removed symlink: .tmux.conf");
    a.note_link_result(2, LinkOp::Remove, Err("x does not exist".into()));
    assert_eq!(a.log.last().unwrap().text, "x does not exist");
    assert_eq!(a.log.last().unwrap().level, Level::Error);
}

#[test]
fn editing_is_reported() {
    let mut a = app();
    let inv = App::editor_for(Some("nvim".into()), "/srv/df/.zshrc");
    assert_eq!(inv.program, "nvim");
    assert_eq!(inv.args, vec!["/srv/df/.zshrc".to_string()]);
    assert_eq!(App::editor_for(None, "/f").program, "vi");
    assert_eq!(a.finish_edit("/srv/df/.zshrc", RunOutcome::Success), Some(0));
    assert_eq!(a.log.last().unwrap().text, "edited /srv/df/.zshrc");
    assert_eq!(a.finish_edit("/f", RunOutcome::Exited(Some(1))), None);
    assert_eq!(a.log.last().unwrap().text, "editor exited with status Some(1)");
    assert_eq!(a.log.last().unwrap().level, Level::Error);
    assert_eq!(a.finish_edit("/f", RunOutcome::LaunchFailed("not found".into())), None);
    assert_eq!(a.log.last().unwrap().text, "failed to launch editor: not found");
    a.note_refreshed();
    assert_eq!(a.log.last().unwrap().text, "status refreshed");
}

#[test]
fn view_labels_and_colours() {
    assert_eq!(check_box(true), ("[x]", Tone::Green));
    assert_eq!(check_box(false), ("[ ]", Tone::DarkGray));
    assert_eq!(presence_mark(true), (" ✓ ", Tone::Green));
    assert_eq!(presence_mark(false), (" · ", Tone::DarkGray));
    assert_eq!(status_label(false), ("not installed", Tone::Yellow));
    assert_eq!(link_label(&LinkState::WrongTarget("/x".into())), ("wrong target", Tone::Red));
    assert_eq!(link_label(&LinkState::Missing), ("missing", Tone::Yellow));
    assert_eq!(level_tone(Level::Command), Tone::Cyan);
    assert_eq!(help_hint(Tab::Configs), "j/k browse  |  Enter/e edit in $EDITOR");
    assert_eq!(GLOBAL_HINT, "Tab switch  |  1-4 tabs  |  ? help  |  q quit");
    assert_eq!(install_title(), "Install  (21 tools)");
    assert_eq!(preview_title(&None), "Preview: (no file)");
    assert_eq!(preview_title(&Some(".zshrc".into())), "Preview: .zshrc");
    assert_eq!(status_title("Arch Linux"), "System status  (OS: Arch Linux)");
}

#[test]
fn log_pane_shows_newest_lines_first() {
    assert_eq!(visible_log(5, 10), vec![4, 3, 2, 1, 0]);
    assert_eq!(visible_log(20, 5), vec![19, 18, 17]);
    assert_eq!(visible_log(3, 1), Vec::<usize>::new());
    assert_eq!(visible_log(0, 10), Vec::<usize>::new());
}

#[test]
fn a_link_reading_back_its_source_is_correct() {
    for home in ["/home/u", "/root"] {
        let d = definitions(home, "/srv/dotfiles");
        for s in d.iter() {
            let probe = TargetProbe::Link(Some(s.source.clone()));
            assert_eq!(state_of(s, probe), LinkState::Correct);
        }
    }
}
