use dotfiles_tui::app::{App, Level};
use dotfiles_tui::installer::{AppendOutcome, Installer, Reply, Request};
use dotfiles_tui::plans::install_plan;
use dotfiles_tui::status::Distro;
use dotfiles_tui::symlink::LinkState;
use dotfiles_tui::tools::{decide, tool, tool_probe, Query, RunOutcome, Verdict, TOOL_COUNT};

fn probe_of(r: &Request) -> Query {
    match r {
        Request::Probe(q) => q.clone(),
        other => panic!("expected a probe, got {:?}", other),
    }
}

fn run_of(r: &Request) -> (String, Vec<String>) {
    match r {
        Request::Run(inv) => (inv.program.clone(), inv.args.clone()),
        other => panic!("expected a run, got {:?}", other),
    }
}

#[test]
fn tool_catalogue_has_names_and_descriptions() {
    assert_eq!(tool(0).name, "dev-tools");
    assert_eq!(tool(0).desc, "Build tools, curl, git, jq (OS packages)");
    assert_eq!(tool(12).name, "fzf+fd+bat");
    assert_eq!(tool(TOOL_COUNT - 1).name, "socket");
    assert_eq!(tool(TOOL_COUNT - 1).desc, "socket.dev CLI");
}

#[test]
fn tool_probes_and_verdicts() {
    let (q, v) = tool_probe(0, "/home/u");
    assert_eq!(q, vec![Query::CommandExists("gcc".into()), Query::CommandExists("make".into())]);
    assert_eq!(v, Verdict::Any);
    let (q, _) = tool_probe(2, "/home/u");
    assert_eq!(q, vec![Query::PathExists("/home/u/.nvm".into())]);
    let (q, v) = tool_probe(12, "/home/u");
    assert_eq!(q.len(), 3);
    assert_eq!(v, Verdict::All);
    assert!(decide(Verdict::Any, &vec![false, true]));
    assert!(!decide(Verdict::Any, &vec![false, false]));
    assert!(decide(Verdict::All, &vec![true, true, true]));
    assert!(!decide(Verdict::All, &vec![true, false, true]));
}

#[test]
fn present_tool_is_reported_without_running_anything() {
    let mut m = Installer::start(install_plan(1, Distro::Ubuntu, "/home/u"));
    let q = probe_of(&m.request().unwrap());
    assert_eq!(q, Query::CommandExists("rustc".into()));
    m.answer(Reply::Found(true));
    assert!(m.request().is_none());
    assert_eq!(m.outcome(), Some(Ok("rust already installed".to_string())));
}

#[test]
fn missing_tool_runs_its_script() {
    let mut m = Installer::start(install_plan(1, Distro::Fedora, "/home/u"));
    m.answer(Reply::Found(false));
    let (prog, args) = run_of(&m.request().unwrap());
    assert_eq!(prog, "sh");
    assert_eq!(
        args,
        vec![
            "-c".to_string(),
            "curl --proto '=https' --tlsv1.2 -sSf https://sh.rustup.rs | sh -s -- -y".to_string()
        ]
    );
    m.answer(Reply::Ran(RunOutcome::Success));
    assert_eq!(m.outcome(), Some(Ok("rust installed".to_string())));
}

#[test]
fn failing_command_ends_with_exit_code() {
    let mut m = Installer::start(install_plan(1, Distro::Ubuntu, "/h"));
    m.answer(Reply::Found(false));
    m.answer(Reply::Ran(RunOutcome::Exited(Some(127))));
    assert_eq!(m.outcome(), Some(Err("rustup install failed (exit Some(127))".to_string())));
    let mut m = Installer::start(install_plan(1, Distro::Ubuntu, "/h"));
    m.answer(Reply::Found(false));
    m.answer(Reply::Ran(RunOutcome::Exited(None)));
    assert_eq!(m.outcome(), Some(Err("rustup install failed (exit None)".to_string())));
    let mut m = Installer::start(install_plan(1, Distro::Ubuntu, "/h"));
    m.answer(Reply::Found(false));
    m.answer(Reply::Ran(RunOutcome::LaunchFailed("No such file or directory (os error 2)".into())));
    assert_eq!(
        m.outcome(),
        Some(Err("rustup install failed: No such file or directory (os error 2)".to_string()))
    );
}

#[test]
fn package_install_on_debian_updates_then_installs() {
    let mut m = Installer::start(install_plan(9, Distro::Debian, "/h"));
    let (p, a) = run_of(&m.request().unwrap());
    assert_eq!(p, "sudo");
    assert_eq!(a, vec!["apt", "update"]);
    m.answer(Reply::Ran(RunOutcome::Success));
    let (p, a) = run_of(&m.request().unwrap());
    assert_eq!(p, "sudo");
    assert_eq!(a, vec!["apt", "install", "-y", "ripgrep"]);
    m.answer(Reply::Ran(RunOutcome::Success));
    assert_eq!(m.outcome(), Some(Ok("apt install completed".to_string())));
}

#[test]
fn package_install_on_arch_and_fedora() {
    let m = Installer::start(install_plan(9, Distro::Arch, "/h"));
    let (_, a) = run_of(&m.request().unwrap());
    assert_eq!(a, vec!["pacman", "-S", "--noconfirm", "ripgrep"]);
    let m = Installer::start(install_plan(7, Distro::Fedora, "/h"));
    let (_, a) = run_of(&m.request().unwrap());
    assert_eq!(a, vec!["dnf", "install", "-y", "redhat-lsb-core"]);
}

#[test]
fn unknown_system_cannot_install_packages() {
    let m = Installer::start(install_plan(9, Distro::Other, "/h"));
    assert!(m.request().is_none());
    assert_eq!(m.outcome(), Some(Err("unsupported distro for package install".to_string())));
    let m = Installer::start(install_plan(0, Distro::Macos, "/h"));
    assert_eq!(m.outcome(), Some(Err("no development tools install defined for this OS".to_string())));
    let m = Installer::start(install_plan(7, Distro::Other, "/h"));
    assert_eq!(m.outcome(), Some(Err("no lsb-release install defined for this OS".to_string())));
}

#[test]
fn go_install_uses_captured_version() {
    let mut m = Installer::start(install_plan(3, Distro::Ubuntu, "/home/u"));
    m.answer(Reply::Found(false));
    match m.request().unwrap() {
        Request::Capture(inv) => {
            assert_eq!(inv.program, "sh");
            assert_eq!(
                inv.args[1],
                "curl -sL 'https://go.dev/VERSION?m=text' | grep -o 'go[0-9.]*' | head -n1"
            );
        }
        other => panic!("unexpected {:?}", other),
    }
    m.answer(Reply::Output(Ok("go1.22.4\n".to_string())));
    let (_, a) = run_of(&m.request().unwrap());
    assert_eq!(a[1], "curl -O https://dl.google.com/go/go1.22.4.linux-amd64.tar.gz");
    m.answer(Reply::Ran(RunOutcome::Success));
    let (_, a) = run_of(&m.request().unwrap());
    assert_eq!(
        a[1],
        "sudo rm -rf /usr/local/go && sudo tar -C /usr/local -xzf go1.22.4.linux-amd64.tar.gz"
    );
    m.answer(Reply::Ran(RunOutcome::Success));
    let (_, a) = run_of(&m.request().unwrap());
    assert_eq!(a[1], "rm -f go1.22.4.linux-amd64.tar.gz");
    m.answer(Reply::Ran(RunOutcome::Success));
    match m.request().unwrap() {
        Request::Append { path, line } => {
            assert_eq!(path, "/home/u/.zshrc");
            assert_eq!(line, "export PATH=$PATH:/usr/local/go/bin");
        }
        other => panic!("unexpected {:?}", other),
    }
    m.answer(Reply::Appended(AppendOutcome::Done));
    assert_eq!(m.outcome(), Some(Ok("go installed".to_string())));
}

#[test]
fn go_install_fails_on_empty_or_missing_version() {
    let mut m = Installer::start(install_plan(3, Distro::Ubuntu, "/h"));
    m.answer(Reply::Found(false));
    m.answer(Reply::Output(Ok("  \n".to_string())));
    assert_eq!(m.outcome(), Some(Err("could not determine latest go version".to_string())));
    let mut m = Installer::start(install_plan(3, Distro::Ubuntu, "/h"));
    m.answer(Reply::Found(false));
    m.answer(Reply::Output(Err("boom".to_string())));
    assert_eq!(m.outcome(), Some(Err("fetch go version: boom".to_string())));
}

#[test]
fn append_failures_name_the_zshrc() {
    let mut m = Installer::start(install_plan(18, Distro::Arch, "/h"));
    m.answer(Reply::Found(false));
    let (_, a) = run_of(&m.request().unwrap());
    assert_eq!(a, vec!["pacman", "-S", "--noconfirm", "python"]);
    m.answer(Reply::Ran(RunOutcome::Success));
    assert_eq!(probe_of(&m.request().unwrap()), Query::CommandExists("pipx".into()));
    m.answer(Reply::Found(true));
    m.answer(Reply::Appended(AppendOutcome::OpenFailed("denied".into())));
    assert_eq!(m.outcome(), Some(Err("open ~/.zshrc: denied".to_string())));
    let mut m = Installer::start(install_plan(18, Distro::Arch, "/h"));
    m.answer(Reply::Found(false));
    m.answer(Reply::Ran(RunOutcome::Success));
    m.answer(Reply::Found(true));
    m.answer(Reply::Appended(AppendOutcome::WriteFailed("disk full".into())));
    assert_eq!(m.outcome(), Some(Err("write ~/.zshrc: disk full".to_string())));
}

#[test]
fn lazygit_script_puts_version_everywhere() {
    let mut m = Installer::start(install_plan(11, Distro::Debian, "/h"));
    m.answer(Reply::Found(false));
    m.answer(Reply::Output(Ok("0.44.1\n".to_string())));
    let (_, a) = run_of(&m.request().unwrap());
    let v = "0.44.1";
    let expected = format!(
        "curl -Lo lazygit.tar.gz \"https://github.com/jesseduffield/lazygit/releases/download/v{v}/lazygit_{v}_Linux_x86_64.tar.gz\" && \
                 tar xf lazygit.tar.gz lazygit && sudo install lazygit -D -t /usr/local/bin/ && \
                 rm -f lazygit lazygit.tar.gz"
    );
    assert_eq!(a[1], expected);
    m.answer(Reply::Ran(RunOutcome::Success));
    assert_eq!(m.outcome(), Some(Ok("install lazygit completed".to_string())));
}

#[test]
fn bottom_is_configured_even_when_present() {
    let mut m = Installer::start(install_plan(15, Distro::Other, "/home/u"));
    assert_eq!(probe_of(&m.request().unwrap()), Query::CommandExists("btm".into()));
    m.answer(Reply::Found(true));
    match m.request().unwrap() {
        Request::MakeDirs(p) => assert_eq!(p, "/home/u/.config/bottom"),
        other => panic!("unexpected {:?}", other),
    }
    m.answer(Reply::Io(Ok(())));
    match m.request().unwrap() {
        Request::Write { path, contents } => {
            assert_eq!(path, "/home/u/.config/bottom/bottom.toml");
            assert_eq!(contents, "[flags]\nbasic = true\ntree = true\n");
        }
        other => panic!("unexpected {:?}", other),
    }
    m.answer(Reply::Io(Err("read-only".into())));
    assert_eq!(m.outcome(), Some(Err("write bottom.toml: read-only".to_string())));
}

#[test]
fn bottom_missing_on_unknown_system_fails() {
    let mut m = Installer::start(install_plan(15, Distro::Other, "/home/u"));
    m.answer(Reply::Found(false));
    assert_eq!(m.outcome(), Some(Err("no bottom install defined for this OS".to_string())));
}

#[test]
fn bottom_debian_script_uses_the_deb_name() {
    let mut m = Installer::start(install_plan(15, Distro::Ubuntu, "/h"));
    m.answer(Reply::Found(false));
    m.answer(Reply::Output(Ok("0.10.2".to_string())));
    let (_, a) = run_of(&m.request().unwrap());
    let v = "0.10.2";
    let deb = format!("bottom_{v}-1_amd64.deb");
    let expected = format!(
        "curl -LO \"https://github.com/ClementTsang/bottom/releases/download/{v}/{deb}\" && \
                     sudo dpkg -i {deb} && rm -f {deb}"
    );
    assert_eq!(a[1], expected);
    m.answer(Reply::Ran(RunOutcome::Success));
    match m.request().unwrap() {
        Request::MakeDirs(_) => {}
        other => panic!("unexpected {:?}", other),
    }
    m.answer(Reply::Io(Err("nope".into())));
    assert_eq!(m.outcome(), Some(Err("mkdir /h/.config/bottom: nope".to_string())));
}

#[test]
fn fzf_fd_bat_skips_present_tools_and_links_debian_names() {
    let mut m = Installer::start(install_plan(12, Distro::Debian, "/home/u"));
    assert_eq!(probe_of(&m.request().unwrap()), Query::CommandExists("fzf".into()));
    m.answer(Reply::Found(true));
    assert_eq!(probe_of(&m.request().unwrap()), Query::CommandExists("fd".into()));
    m.answer(Reply::Found(false));
    let (_, a) = run_of(&m.request().unwrap());
    assert_eq!(a, vec!["apt", "update"]);
    m.answer(Reply::Ran(RunOutcome::Success));
    let (_, a) = run_of(&m.request().unwrap());
    assert_eq!(a, vec!["apt", "install", "-y", "fd-find"]);
    m.answer(Reply::Ran(RunOutcome::Success));
    match m.request().unwrap() {
        Request::MakeDirs(p) => assert_eq!(p, "/home/u/.local/bin"),
        other => panic!("unexpected {:?}", other),
    }
    m.answer(Reply::Io(Ok(())));
    match m.request().unwrap() {
        Request::Link { source, link } => {
            assert_eq!(source, "/usr/bin/fdfind");
            assert_eq!(link, "/home/u/.local/bin/fd");
        }
        other => panic!("unexpected {:?}", other),
    }
    m.answer(Reply::Io(Err("exists".into())));
    assert_eq!(m.outcome(), Some(Err("symlink fd: exists".to_string())));
}

#[test]
fn fzf_fd_bat_all_present_is_ready() {
    let mut m = Installer::start(install_plan(12, Distro::Fedora, "/h"));
    m.answer(Reply::Found(true));
    m.answer(Reply::Found(true));
    m.answer(Reply::Found(true));
    assert_eq!(m.outcome(), Some(Ok("fzf, fd and bat ready".to_string())));
}

#[test]
fn eza_elsewhere_needs_cargo() {
    let mut m = Installer::start(install_plan(10, Distro::Other, "/h"));
    m.answer(Reply::Found(false));
    assert_eq!(probe_of(&m.request().unwrap()), Query::CommandExists("cargo".into()));
    m.answer(Reply::Found(false));
    assert_eq!(m.outcome(), Some(Err("no eza install for this OS (cargo missing)".to_string())));
    let mut m = Installer::start(install_plan(10, Distro::Macos, "/h"));
    m.answer(Reply::Found(false));
    m.answer(Reply::Found(true));
    let (p, a) = run_of(&m.request().unwrap());
    assert_eq!(p, "cargo");
    assert_eq!(a, vec!["install", "eza"]);
    m.answer(Reply::Ran(RunOutcome::Success));
    assert_eq!(m.outcome(), Some(Ok("cargo install eza completed".to_string())));
}

#[test]
fn plugins_clone_into_home() {
    let mut m = Installer::start(install_plan(13, Distro::Arch, "/home/u"));
    assert_eq!(
        probe_of(&m.request().unwrap()),
        Query::PathExists("/home/u/.oh-my-zsh/custom/plugins/zsh-autosuggestions".into())
    );
    m.answer(Reply::Found(false));
    let (_, a) = run_of(&m.request().unwrap());
    assert_eq!(
        a[1],
        "git clone https://github.com/zsh-users/zsh-autosuggestions /home/u/.oh-my-zsh/custom/plugins/zsh-autosuggestions"
    );
    m.answer(Reply::Ran(RunOutcome::Success));
    assert_eq!(m.outcome(), Some(Ok("zsh-autosuggestions installed".to_string())));
    let mut m = Installer::start(install_plan(14, Distro::Arch, "/home/u"));
    m.answer(Reply::Found(true));
    assert_eq!(m.outcome(), Some(Ok("zsh-ai already installed".to_string())));
}

#[test]
fn every_guarded_tool_reports_already_installed() {
    for i in [1, 2, 3, 4, 5, 6, 8, 10, 11, 13, 14, 16, 17, 18, 19, 20] {
        for d in [Distro::Ubuntu, Distro::Fedora, Distro::Other] {
            let mut m = Installer::start(install_plan(i, d, "/h"));
            m.answer(Reply::Found(true));
            assert_eq!(m.outcome(), Some(Ok(format!("{} already installed", tool(i).name))));
        }
    }
}

#[test]
fn socket_and_nvim_and_tmux_steps() {
    let mut m = Installer::start(install_plan(20, Distro::Other, "/h"));
    m.answer(Reply::Found(false));
    let (p, a) = run_of(&m.request().unwrap());
    assert_eq!((p.as_str(), a), ("npm", vec!["install".to_string(), "-g".into(), "socket".into()]));
    m.answer(Reply::Ran(RunOutcome::Success));
    assert_eq!(m.outcome(), Some(Ok("socket.dev CLI installed".to_string())));

    let mut m = Installer::start(install_plan(5, Distro::Fedora, "/h"));
    m.answer(Reply::Found(false));
    let (_, a) = run_of(&m.request().unwrap());
    assert_eq!(a, vec!["dnf", "install", "-y", "neovim", "python3-neovim"]);
    m.answer(Reply::Ran(RunOutcome::Success));
    assert_eq!(m.outcome(), Some(Ok("dnf install nvim completed".to_string())));

    let mut m = Installer::start(install_plan(6, Distro::Macos, "/h"));
    m.answer(Reply::Found(false));
    assert_eq!(m.outcome(), Some(Err("no tmux source install defined for this OS".to_string())));
}

fn app() -> App {
    App::new("/h", "/d", "X", vec![false; TOOL_COUNT], vec![LinkState::Missing; 4], Ok(String::new()))
}

#[test]
fn begin_installs_lists_ticked_tools() {
    let mut a = app();
    let sel = a.begin_installs();
    assert!(sel.is_empty());
    assert_eq!(a.log.last().unwrap().text, "no tools selected");
    assert_eq!(a.log.last().unwrap().level, Level::Error);
    a.install_checked[1] = true;
    a.install_checked[3] = true;
    let sel = a.begin_installs();
    assert_eq!(sel, vec![1, 3]);
    assert_eq!(a.log.last().unwrap().text, "installing: rust, go");
    assert_eq!(a.log.last().unwrap().level, Level::Command);
}

#[test]
fn finish_installs_logs_and_unticks() {
    let mut a = app();
    a.install_checked[1] = true;
    a.install_checked[3] = true;
    let sel = a.begin_installs();
    a.finish_installs(&sel, &vec![Ok("rust installed".into()), Err("fetch go version: x".into())]);
    let n = a.log.len();
    assert_eq!(a.log[n - 2].text, "[rust] rust installed");
    assert_eq!(a.log[n - 2].level, Level::Success);
    assert_eq!(a.log[n - 1].text, "[go] fetch go version: x");
    assert_eq!(a.log[n - 1].level, Level::Error);
    assert!(a.install_checked.iter().all(|&b| !b));
}

#[test]
fn runs_only_move_forward_until_done() {
    for i in 0..TOOL_COUNT {
        for d in [Distro::Ubuntu, Distro::Debian, Distro::OpenSuse, Distro::Fedora, Distro::Arch, Distro::Other] {
            let mut m = Installer::start(install_plan(i, d, "/h"));
            let mut steps = 0;
            while let Some(req) = m.request() {
                let reply = match req {
                    Request::Probe(_) => Reply::Found(false),
                    Request::Run(_) => Reply::Ran(RunOutcome::Success),
                    Request::Capture(_) => Reply::Output(Ok("1.0".into())),
                    Request::Append { .. } => Reply::Appended(AppendOutcome::Done),
                    Request::MakeDirs(_) | Request::Link { .. } | Request::Write { .. } => Reply::Io(Ok(())),
                };
                m.answer(reply);
                steps += 1;
                assert!(steps < 64);
            }
            assert!(m.outcome().is_some());
        }
    }
}
