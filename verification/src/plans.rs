//! What installing each tool of the catalogue takes, system by system.
use vstd::prelude::*;
use crate::status::Distro;
use crate::installer::{
    pieces_view, steps_view, template, CommandView, Piece, PieceView, Step, StepView,
    Command,
};
use crate::text::{cat, join, owned, path_join};
use crate::tools::{texts_view, Query, QueryView};

verus! {

/// The texts of a list of string literals.
pub open spec fn strs(s: Seq<&str>) -> Seq<Seq<char>> {
    s.map_values(|x: &str| x@)
}

pub open spec fn sudo_step(args: Seq<Seq<char>>, what: Seq<char>) -> StepView {
    StepView::Exec { command: CommandView::Sudo(args), what }
}

pub open spec fn sh_step(script: Seq<char>, what: Seq<char>) -> StepView {
    StepView::Exec { command: CommandView::Shell(seq![PieceView::Text(script)]), what }
}

pub open spec fn template_step(parts: Seq<&str>, what: Seq<char>) -> StepView {
    StepView::Exec { command: CommandView::Shell(template(parts)), what }
}

pub open spec fn run_step(name: Seq<char>, args: Seq<Seq<char>>, what: Seq<char>) -> StepView {
    StepView::Exec { command: CommandView::Program { name, args }, what }
}

/// Stop with success `msg` when the command `cmd` is already found.
pub open spec fn guard_cmd(cmd: Seq<char>, msg: Seq<char>) -> StepView {
    StepView::StopIf { query: QueryView::CommandExists(cmd), when: true, outcome: Ok(msg) }
}

/// Stop with success `msg` when something already exists at `path`.
pub open spec fn guard_path(path: Seq<char>, msg: Seq<char>) -> StepView {
    StepView::StopIf { query: QueryView::PathExists(path), when: true, outcome: Ok(msg) }
}

/// Stop with error `msg` when the command `cmd` is not found.
pub open spec fn require_cmd(cmd: Seq<char>, msg: Seq<char>) -> StepView {
    StepView::StopIf { query: QueryView::CommandExists(cmd), when: false, outcome: Err(msg) }
}

pub open spec fn skip_cmd(cmd: Seq<char>, count: nat) -> StepView {
    StepView::SkipIf { query: QueryView::CommandExists(cmd), count }
}

pub open spec fn capture_step(script: Seq<char>, what: Seq<char>, empty: Seq<char>) -> StepView {
    StepView::Capture { script, what, empty }
}

pub open spec fn append_step(home: Seq<char>, line: Seq<char>) -> StepView {
    StepView::AppendLine { path: path_join(home, ".zshrc"@), line }
}

pub open spec fn done_step(msg: Seq<char>) -> StepView {
    StepView::Finish(Ok(msg))
}

pub open spec fn fail_step(msg: Seq<char>) -> StepView {
    StepView::Finish(Err(msg))
}

pub open spec fn is_debian_like(d: Distro) -> bool {
    d == Distro::Ubuntu || d == Distro::Debian
}

/// Installing packages with the system's package manager.
pub open spec fn pkg_steps(d: Distro, packages: Seq<&str>) -> Seq<StepView> {
    match d {
        Distro::Ubuntu | Distro::Debian => seq![
            sudo_step(strs(seq!["apt", "update"]), "apt update"@),
            sudo_step(strs(seq!["apt", "install", "-y"]) + strs(packages), "apt install"@),
        ],
        Distro::OpenSuse => seq![
            sudo_step(strs(seq!["zypper", "refresh"]), "zypper refresh"@),
            sudo_step(strs(seq!["zypper", "install", "-y"]) + strs(packages), "zypper install"@),
        ],
        Distro::Fedora => seq![
            sudo_step(strs(seq!["dnf", "install", "-y"]) + strs(packages), "dnf install"@),
        ],
        Distro::Arch => seq![
            sudo_step(strs(seq!["pacman", "-S", "--noconfirm"]) + strs(packages), "pacman install"@),
        ],
        _ => seq![fail_step("unsupported distro for package install"@)],
    }
}

fn words(a: &[&str]) -> (r: Vec<String>)
    ensures
        texts_view(r@) == strs(a@),
{
    let mut r: Vec<String> = Vec::new();
    let mut i: usize = 0;
    while i < a.len()
        invariant
            i <= a@.len(),
            texts_view(r@) == strs(a@.take(i as int)),
        decreases a@.len() - i,
    {
        let w = a[i];
        let ghost before = r@;
        let s = owned(w);
        r.push(s);
        proof {
            assert(w == a@[i as int]);
            assert(a@.take(i + 1) =~= a@.take(i as int).push(w));
            assert(texts_view(r@) =~= texts_view(before).push(w@));
            assert(strs(a@.take(i + 1)) =~= strs(a@.take(i as int)).push(w@));
        }
        i = i + 1;
    }
    proof {
        assert(a@.take(a@.len() as int) =~= a@);
    }
    r
}

fn words_then(a: &[&str], b: &[&str]) -> (r: Vec<String>)
    ensures
        texts_view(r@) == strs(a@) + strs(b@),
{
    let mut r = words(a);
    let mut tail = words(b);
    let ghost ra = r@;
    let ghost rb = tail@;
    r.append(&mut tail);
    proof {
        assert(texts_view(r@) =~= texts_view(ra) + texts_view(rb));
    }
    r
}

fn put(p: &mut Vec<Step>, s: Step)
    ensures
        steps_view(final(p)@) == steps_view(old(p)@).push(s@),
{
    let ghost e = s@;
    p.push(s);
    proof {
        assert(steps_view(p@) =~= steps_view(old(p)@).push(e));
    }
}

fn extend(p: &mut Vec<Step>, w: Vec<Step>)
    ensures
        steps_view(final(p)@) == steps_view(old(p)@) + steps_view(w@),
{
    let mut w = w;
    let ghost wv = w@;
    p.append(&mut w);
    proof {
        assert(steps_view(p@) =~= steps_view(old(p)@) + steps_view(wv));
    }
}

fn sudo(args: &[&str], what: &str) -> (r: Step)
    ensures
        r@ == sudo_step(strs(args@), what@),
{
    Step::Exec { command: Command::Sudo(words(args)), what: owned(what) }
}

fn sudo_with(args: &[&str], more: &[&str], what: &str) -> (r: Step)
    ensures
        r@ == sudo_step(strs(args@) + strs(more@), what@),
{
    Step::Exec { command: Command::Sudo(words_then(args, more)), what: owned(what) }
}

fn sh_text(script: String, what: &str) -> (r: Step)
    ensures
        r@ == sh_step(script@, what@),
{
    let pieces = vec![Piece::Text(script)];
    proof {
        assert(pieces_view(pieces@) =~= seq![PieceView::Text(script@)]);
    }
    Step::Exec { command: Command::Shell(pieces), what: owned(what) }
}

fn sh(script: &str, what: &str) -> (r: Step)
    ensures
        r@ == sh_step(script@, what@),
{
    sh_text(owned(script), what)
}

fn sh_template(parts: &[&str], what: &str) -> (r: Step)
    requires
        parts@.len() > 0,
    ensures
        r@ == template_step(parts@, what@),
{
    Step::Exec { command: Command::Shell(crate::installer::build_template(parts)), what: owned(what) }
}

fn run(name: &str, args: &[&str], what: &str) -> (r: Step)
    ensures
        r@ == run_step(name@, strs(args@), what@),
{
    Step::Exec { command: Command::Program { name: owned(name), args: words(args) }, what: owned(what) }
}

fn done_if(cmd: &str, msg: &str) -> (r: Step)
    ensures
        r@ == guard_cmd(cmd@, msg@),
{
    Step::StopIf { query: Query::CommandExists(owned(cmd)), when: true, outcome: Ok(owned(msg)) }
}

fn done_if_path(path: String, msg: &str) -> (r: Step)
    ensures
        r@ == guard_path(path@, msg@),
{
    Step::StopIf { query: Query::PathExists(path), when: true, outcome: Ok(owned(msg)) }
}

fn fail_unless(cmd: &str, msg: &str) -> (r: Step)
    ensures
        r@ == require_cmd(cmd@, msg@),
{
    Step::StopIf { query: Query::CommandExists(owned(cmd)), when: false, outcome: Err(owned(msg)) }
}

fn skip_if(cmd: &str, count: usize) -> (r: Step)
    ensures
        r@ == skip_cmd(cmd@, count as nat),
{
    Step::SkipIf { query: Query::CommandExists(owned(cmd)), count }
}

fn capture(script: &str, what: &str, empty: &str) -> (r: Step)
    ensures
        r@ == capture_step(script@, what@, empty@),
{
    Step::Capture { script: owned(script), what: owned(what), empty: owned(empty) }
}

fn append_zshrc(home: &str, line: &str) -> (r: Step)
    ensures
        r@ == append_step(home@, line@),
{
    Step::AppendLine { path: join(home, ".zshrc"), line: owned(line) }
}

fn done(msg: &str) -> (r: Step)
    ensures
        r@ == done_step(msg@),
{
    Step::Finish(Ok(owned(msg)))
}

fn fail(msg: &str) -> (r: Step)
    ensures
        r@ == fail_step(msg@),
{
    Step::Finish(Err(owned(msg)))
}

/// The steps that install `packages` with the system's package manager.
pub fn pkg(d: Distro, packages: &[&str]) -> (r: Vec<Step>)
    ensures
        steps_view(r@) == pkg_steps(d, packages@),
{
    let mut p: Vec<Step> = Vec::new();
    match d {
        Distro::Ubuntu | Distro::Debian => {
            put(&mut p, sudo(&["apt", "update"], "apt update"));
            put(&mut p, sudo_with(&["apt", "install", "-y"], packages, "apt install"));
        },
        Distro::OpenSuse => {
            put(&mut p, sudo(&["zypper", "refresh"], "zypper refresh"));
            put(&mut p, sudo_with(&["zypper", "install", "-y"], packages, "zypper install"));
        },
        Distro::Fedora => {
            put(&mut p, sudo_with(&["dnf", "install", "-y"], packages, "dnf install"));
        },
        Distro::Arch => {
            put(&mut p, sudo_with(&["pacman", "-S", "--noconfirm"], packages, "pacman install"));
        },
        _ => {
            put(&mut p, fail("unsupported distro for package install"));
        },
    }
    p
}

pub const RUSTUP_SCRIPT: &'static str = "curl --proto '=https' --tlsv1.2 -sSf https://sh.rustup.rs | sh -s -- -y";

pub const NVM_SCRIPT: &'static str = "curl -o- https://raw.githubusercontent.com/nvm-sh/nvm/v0.40.3/install.sh | bash";

pub const GO_VERSION_SCRIPT: &'static str = "curl -sL 'https://go.dev/VERSION?m=text' | grep -o 'go[0-9.]*' | head -n1";

pub const NODE_SCRIPT: &'static str = ". ~/.nvm/nvm.sh && nvm install --lts";

pub const NVIM_DOWNLOAD: &'static str = "curl -LO https://github.com/neovim/neovim/releases/download/stable/nvim-linux-x86_64.tar.gz";

pub const NVIM_EXTRACT: &'static str = "sudo rm -rf /opt/nvim && sudo tar -C /opt -xzf nvim-linux-x86_64.tar.gz";

pub const NVIM_CLEANUP: &'static str = "rm -f nvim-linux-x86_64.tar.gz";

pub const NVIM_PATH_LINE: &'static str = "export PATH=\"$PATH:/opt/nvim-linux-x86_64/bin\"";

pub const TMUX_BUILD: &'static str = "set -e; TMP=$(mktemp -d); git clone https://github.com/tmux/tmux.git \"$TMP/tmux\"; \
         ( cd \"$TMP/tmux\" && sh autogen.sh && ./configure --enable-sixel && make -j\"$(nproc)\" && sudo make install ); \
         rm -rf \"$TMP\"";

pub const PNPM_SCRIPT: &'static str = "curl -fsSL https://get.pnpm.io/install.sh | sh -";

pub const EZA_KEY: &'static str = "sudo mkdir -p /etc/apt/keyrings && \
                 wget -qO- https://raw.githubusercontent.com/eza-community/eza/main/deb.asc | \
                 sudo gpg --dearmor -o /etc/apt/keyrings/gierens.gpg";

pub const EZA_REPO: &'static str = "echo 'deb [signed-by=/etc/apt/keyrings/gierens.gpg] http://deb.gierens.de stable main' | \
                 sudo tee /etc/apt/sources.list.d/gierens.list";

pub const EZA_CHMOD: &'static str = "sudo chmod 644 /etc/apt/keyrings/gierens.gpg /etc/apt/sources.list.d/gierens.list";

pub const LAZYGIT_VERSION_SCRIPT: &'static str = "curl -s \"https://api.github.com/repos/jesseduffield/lazygit/releases/latest\" | \
                 grep -Po '\"tag_name\": \"v\\K[^\"]*'";

pub const LAZYGIT_REPO: &'static str = "https://download.opensuse.org/repositories/devel:/languages:/go/openSUSE_Factory/devel:languages:go.repo";

pub const BOTTOM_VERSION_SCRIPT: &'static str = "curl -s \"https://api.github.com/repos/ClementTsang/bottom/releases/latest\" | \
                     grep -Po '\"tag_name\": \"\\K[^\"]*'";

pub const BOTTOM_CONFIG: &'static str = "[flags]\nbasic = true\ntree = true\n";

pub const BUN_SCRIPT: &'static str = "curl -fsSL https://bun.sh/install | bash";

pub const SDKMAN_SCRIPT: &'static str = "curl -s \"https://get.sdkman.io\" | bash";

pub const PIPX_SCRIPT: &'static str = "python3 -m pip install --user pipx && python3 -m pipx ensurepath";

pub const ZOXIDE_SCRIPT: &'static str = "curl -sSfL https://raw.githubusercontent.com/ajeetdsouza/zoxide/main/install.sh | sh";

/// The steps that install one package.
pub fn pkg1(d: Distro, package: &str) -> (r: Vec<Step>)
    ensures
        steps_view(r@) == pkg_steps(d, seq![package]),
{
    let a = [package];
    proof {
        assert(a@ =~= seq![package]);
    }
    pkg(d, &a)
}

/// Development tools.
pub open spec fn dev_tools_plan(d: Distro) -> Seq<StepView> {
    match d {
        Distro::Ubuntu | Distro::Debian => pkg_steps(
            d,
            seq!["build-essential", "unzip", "wget", "curl", "git", "jq"],
        ),
        Distro::OpenSuse => seq![
            sudo_step(strs(seq!["zypper", "refresh"]), "zypper refresh"@),
            sudo_step(strs(seq!["zypper", "install", "-y", "unzip", "jq"]), "zypper install"@),
            sudo_step(
                strs(seq!["zypper", "install", "-y", "-t", "pattern", "devel_basis", "devel_C_C++"]),
                "zypper install patterns"@,
            ),
        ],
        Distro::Fedora => seq![
            sudo_step(
                strs(
                    seq![
                        "dnf",
                        "group",
                        "install",
                        "-y",
                        "Development Tools",
                        "C Development Tools and Libraries",
                    ],
                ),
                "dnf group install"@,
            ),
            sudo_step(
                strs(seq!["dnf", "install", "-y", "gcc", "gcc-c++", "make", "unzip", "jq"]),
                "dnf install"@,
            ),
        ],
        _ => seq![fail_step("no development tools install defined for this OS"@)],
    }
}

/// Installs the development tools.
pub fn install_dev_tools(d: Distro) -> (r: Vec<Step>)
    ensures
        steps_view(r@) == dev_tools_plan(d),
{
    let mut p: Vec<Step> = Vec::new();
    match d {
        Distro::Ubuntu | Distro::Debian => {
            return pkg(d, &["build-essential", "unzip", "wget", "curl", "git", "jq"]);
        },
        Distro::OpenSuse => {
            put(&mut p, sudo(&["zypper", "refresh"], "zypper refresh"));
            put(&mut p, sudo(&["zypper", "install", "-y", "unzip", "jq"], "zypper install"));
            put(
                &mut p,
                sudo(
                    &["zypper", "install", "-y", "-t", "pattern", "devel_basis", "devel_C_C++"],
                    "zypper install patterns",
                ),
            );
        },
        Distro::Fedora => {
            put(
                &mut p,
                sudo(
                    &[
                        "dnf",
                        "group",
                        "install",
                        "-y",
                        "Development Tools",
                        "C Development Tools and Libraries",
                    ],
                    "dnf group install",
                ),
            );
            put(
                &mut p,
                sudo(&["dnf", "install", "-y", "gcc", "gcc-c++", "make", "unzip", "jq"], "dnf install"),
            );
        },
        _ => {
            put(&mut p, fail("no development tools install defined for this OS"));
        },
    }
    p
}

/// A tool installed by one shell script unless its command is present.
pub open spec fn script_plan(
    cmd: Seq<char>,
    present: Seq<char>,
    script: Seq<char>,
    what: Seq<char>,
    installed: Seq<char>,
) -> Seq<StepView> {
    seq![guard_cmd(cmd, present), sh_step(script, what), done_step(installed)]
}

fn script_install(cmd: &str, present: &str, script: &str, what: &str, installed: &str) -> (r: Vec<
    Step,
>)
    ensures
        steps_view(r@) == script_plan(cmd@, present@, script@, what@, installed@),
{
    let mut p: Vec<Step> = Vec::new();
    put(&mut p, done_if(cmd, present));
    put(&mut p, sh(script, what));
    put(&mut p, done(installed));
    p
}

/// A tool installed by one shell script unless something exists at a path.
pub open spec fn path_script_plan(
    path: Seq<char>,
    present: Seq<char>,
    script: Seq<char>,
    what: Seq<char>,
    installed: Seq<char>,
) -> Seq<StepView> {
    seq![guard_path(path, present), sh_step(script, what), done_step(installed)]
}

fn path_script_install(
    path: String,
    present: &str,
    script: String,
    what: &str,
    installed: &str,
) -> (r: Vec<Step>)
    ensures
        steps_view(r@) == path_script_plan(path@, present@, script@, what@, installed@),
{
    let mut p: Vec<Step> = Vec::new();
    put(&mut p, done_if_path(path, present));
    put(&mut p, sh_text(script, what));
    put(&mut p, done(installed));
    p
}

/// Rust, through rustup.
pub open spec fn rust_plan() -> Seq<StepView> {
    script_plan(
        "rustc"@,
        "rust already installed"@,
        RUSTUP_SCRIPT@,
        "rustup install"@,
        "rust installed"@,
    )
}

pub fn install_rust() -> (r: Vec<Step>)
    ensures
        steps_view(r@) == rust_plan(),
{
    script_install("rustc", "rust already installed", RUSTUP_SCRIPT, "rustup install", "rust installed")
}

/// The Node Version Manager.
pub open spec fn nvm_plan(home: Seq<char>) -> Seq<StepView> {
    path_script_plan(
        path_join(home, ".nvm"@),
        "nvm already installed"@,
        NVM_SCRIPT@,
        "nvm install"@,
        "nvm installed"@,
    )
}

pub fn install_nvm(home: &str) -> (r: Vec<Step>)
    ensures
        steps_view(r@) == nvm_plan(home@),
{
    path_script_install(
        join(home, ".nvm"),
        "nvm already installed",
        owned(NVM_SCRIPT),
        "nvm install",
        "nvm installed",
    )
}

/// Go, from the official tarball of the latest version.
pub open spec fn go_plan(home: Seq<char>) -> Seq<StepView> {
    seq![
        guard_cmd("go"@, "go already installed"@),
        capture_step(
            GO_VERSION_SCRIPT@,
            "fetch go version"@,
            "could not determine latest go version"@,
        ),
        template_step(
            seq!["curl -O https://dl.google.com/go/", ".linux-amd64.tar.gz"],
            "download go"@,
        ),
        template_step(
            seq!["sudo rm -rf /usr/local/go && sudo tar -C /usr/local -xzf ", ".linux-amd64.tar.gz"],
            "extract go"@,
        ),
        template_step(seq!["rm -f ", ".linux-amd64.tar.gz"], "cleanup go tarball"@),
        append_step(home, "export PATH=$PATH:/usr/local/go/bin"@),
        done_step("go installed"@),
    ]
}

pub fn install_go(home: &str) -> (r: Vec<Step>)
    ensures
        steps_view(r@) == go_plan(home@),
{
    let mut p: Vec<Step> = Vec::new();
    put(&mut p, done_if("go", "go already installed"));
    put(
        &mut p,
        capture(GO_VERSION_SCRIPT, "fetch go version", "could not determine latest go version"),
    );
    put(
        &mut p,
        sh_template(&["curl -O https://dl.google.com/go/", ".linux-amd64.tar.gz"], "download go"),
    );
    put(
        &mut p,
        sh_template(
            &["sudo rm -rf /usr/local/go && sudo tar -C /usr/local -xzf ", ".linux-amd64.tar.gz"],
            "extract go",
        ),
    );
    put(&mut p, sh_template(&["rm -f ", ".linux-amd64.tar.gz"], "cleanup go tarball"));
    put(&mut p, append_zshrc(home, "export PATH=$PATH:/usr/local/go/bin"));
    put(&mut p, done("go installed"));
    p
}

/// Node.js LTS, through nvm.
pub open spec fn node_plan() -> Seq<StepView> {
    script_plan(
        "node"@,
        "node already installed"@,
        NODE_SCRIPT@,
        "nvm install node"@,
        "node installed"@,
    )
}

pub fn install_node() -> (r: Vec<Step>)
    ensures
        steps_view(r@) == node_plan(),
{
    script_install("node", "node already installed", NODE_SCRIPT, "nvm install node", "node installed")
}

/// Neovim: the distribution package on Fedora, the release tarball elsewhere.
pub open spec fn nvim_plan(d: Distro, home: Seq<char>) -> Seq<StepView> {
    if d == Distro::Fedora {
        seq![
            guard_cmd("nvim"@, "nvim already installed"@),
            sudo_step(strs(seq!["dnf", "install", "-y", "neovim", "python3-neovim"]), "dnf install nvim"@),
        ]
    } else {
        seq![
            guard_cmd("nvim"@, "nvim already installed"@),
            sh_step(NVIM_DOWNLOAD@, "download nvim"@),
            sh_step(NVIM_EXTRACT@, "extract nvim"@),
            sh_step(NVIM_CLEANUP@, "cleanup nvim tarball"@),
            append_step(home, NVIM_PATH_LINE@),
            done_step("nvim installed"@),
        ]
    }
}

pub fn install_nvim(d: Distro, home: &str) -> (r: Vec<Step>)
    ensures
        steps_view(r@) == nvim_plan(d, home@),
{
    let mut p: Vec<Step> = Vec::new();
    put(&mut p, done_if("nvim", "nvim already installed"));
    if d == Distro::Fedora {
        put(
            &mut p,
            sudo(&["dnf", "install", "-y", "neovim", "python3-neovim"], "dnf install nvim"),
        );
    } else {
        put(&mut p, sh(NVIM_DOWNLOAD, "download nvim"));
        put(&mut p, sh(NVIM_EXTRACT, "extract nvim"));
        put(&mut p, sh(NVIM_CLEANUP, "cleanup nvim tarball"));
        put(&mut p, append_zshrc(home, NVIM_PATH_LINE));
        put(&mut p, done("nvim installed"));
    }
    p
}

/// tmux, built from source with sixel support after installing what the
/// build needs.
pub open spec fn tmux_plan(d: Distro) -> Seq<StepView> {
    let guard = seq![guard_cmd("tmux"@, "tmux already installed"@)];
    let tail = seq![
        sh_step(TMUX_BUILD@, "build tmux from source"@),
        done_step("tmux built from source with sixel support"@),
    ];
    match d {
        Distro::Ubuntu | Distro::Debian => guard + pkg_steps(
            d,
            seq![
                "git",
                "build-essential",
                "autoconf",
                "automake",
                "pkg-config",
                "libevent-dev",
                "libncurses-dev",
                "libutempter-dev",
                "libgd-dev",
            ],
        ) + tail,
        Distro::OpenSuse => guard + pkg_steps(
            d,
            seq![
                "git",
                "gcc",
                "make",
                "autoconf",
                "automake",
                "pkg-config",
                "libevent-devel",
                "ncurses-devel",
                "libutempter-devel",
                "libgd-devel",
            ],
        ) + tail,
        Distro::Fedora => guard + pkg_steps(
            d,
            seq![
                "git",
                "gcc",
                "make",
                "autoconf",
                "automake",
                "pkgconfig",
                "libevent-devel",
                "ncurses-devel",
                "libutempter-devel",
                "libgd-devel",
            ],
        ) + tail,
        Distro::Arch => guard + pkg_steps(
            d,
            seq!["git", "base-devel", "ncurses", "libevent", "libutempter", "pkgconf", "libgd"],
        ) + tail,
        _ => guard + seq![fail_step("no tmux source install defined for this OS"@)],
    }
}

pub fn install_tmux(d: Distro) -> (r: Vec<Step>)
    ensures
        steps_view(r@) == tmux_plan(d),
{
    let mut p: Vec<Step> = Vec::new();
    put(&mut p, done_if("tmux", "tmux already installed"));
    let deps = match d {
        Distro::Ubuntu | Distro::Debian => pkg(
            d,
            &[
                "git",
                "build-essential",
                "autoconf",
                "automake",
                "pkg-config",
                "libevent-dev",
                "libncurses-dev",
                "libutempter-dev",
                "libgd-dev",
            ],
        ),
        Distro::OpenSuse => pkg(
            d,
            &[
                "git",
                "gcc",
                "make",
                "autoconf",
                "automake",
                "pkg-config",
                "libevent-devel",
                "ncurses-devel",
                "libutempter-devel",
                "libgd-devel",
            ],
        ),
        Distro::Fedora => pkg(
            d,
            &[
                "git",
                "gcc",
                "make",
                "autoconf",
                "automake",
                "pkgconfig",
                "libevent-devel",
                "ncurses-devel",
                "libutempter-devel",
                "libgd-devel",
            ],
        ),
        Distro::Arch => pkg(
            d,
            &["git", "base-devel", "ncurses", "libevent", "libutempter", "pkgconf", "libgd"],
        ),
        _ => {
            put(&mut p, fail("no tmux source install defined for this OS"));
            proof {
                assert(steps_view(p@) =~= tmux_plan(d));
            }
            return p;
        },
    };
    extend(&mut p, deps);
    put(&mut p, sh(TMUX_BUILD, "build tmux from source"));
    put(&mut p, done("tmux built from source with sixel support"));
    proof {
        assert(steps_view(p@) =~= tmux_plan(d));
    }
    p
}

/// The lsb-release package.
pub open spec fn lsb_plan(d: Distro) -> Seq<StepView> {
    match d {
        Distro::Ubuntu | Distro::Debian => pkg_steps(d, seq!["lsb-release"]),
        Distro::OpenSuse => pkg_steps(d, seq!["lsb-release"]),
        Distro::Fedora => pkg_steps(d, seq!["redhat-lsb-core"]),
        Distro::Arch => pkg_steps(d, seq!["lsb-release"]),
        _ => seq![fail_step("no lsb-release install defined for this OS"@)],
    }
}

pub fn install_lsbrelease(d: Distro) -> (r: Vec<Step>)
    ensures
        steps_view(r@) == lsb_plan(d),
{
    match d {
        Distro::Ubuntu | Distro::Debian => pkg1(d, "lsb-release"),
        Distro::OpenSuse => pkg1(d, "lsb-release"),
        Distro::Fedora => pkg1(d, "redhat-lsb-core"),
        Distro::Arch => pkg1(d, "lsb-release"),
        _ => {
            let mut p: Vec<Step> = Vec::new();
            put(&mut p, fail("no lsb-release install defined for this OS"));
            p
        },
    }
}

/// The pnpm package manager.
pub open spec fn pnpm_plan() -> Seq<StepView> {
    script_plan(
        "pnpm"@,
        "pnpm already installed"@,
        PNPM_SCRIPT@,
        "install pnpm"@,
        "pnpm installed"@,
    )
}

pub fn install_pnpm() -> (r: Vec<Step>)
    ensures
        steps_view(r@) == pnpm_plan(),
{
    script_install("pnpm", "pnpm already installed", PNPM_SCRIPT, "install pnpm", "pnpm installed")
}

/// ripgrep.
pub open spec fn ripgrep_plan(d: Distro) -> Seq<StepView> {
    pkg_steps(d, seq!["ripgrep"])
}

pub fn install_ripgrep(d: Distro) -> (r: Vec<Step>)
    ensures
        steps_view(r@) == ripgrep_plan(d),
{
    pkg1(d, "ripgrep")
}

/// eza: the distribution package where there is one, its own apt
/// repository on Debian, `cargo install` elsewhere.
pub open spec fn eza_plan(d: Distro) -> Seq<StepView> {
    let guard = seq![guard_cmd("eza"@, "eza already installed"@)];
    match d {
        Distro::Ubuntu => guard + pkg_steps(d, seq!["eza"]),
        Distro::Debian => guard + seq![
            sudo_step(strs(seq!["apt", "update"]), "apt update"@),
            sudo_step(strs(seq!["apt", "install", "-y", "gpg"]), "install gpg"@),
            sh_step(EZA_KEY@, "add eza signing key"@),
            sh_step(EZA_REPO@, "add eza apt repo"@),
            sh_step(EZA_CHMOD@, "chmod eza repo files"@),
            sudo_step(strs(seq!["apt", "update"]), "apt update"@),
            sudo_step(strs(seq!["apt", "install", "-y", "eza"]), "install eza"@),
        ],
        Distro::OpenSuse => guard + pkg_steps(d, seq!["eza"]),
        Distro::Fedora => guard + pkg_steps(d, seq!["eza"]),
        _ => guard + seq![
            require_cmd("cargo"@, "no eza install for this OS (cargo missing)"@),
            run_step("cargo"@, strs(seq!["install", "eza"]), "cargo install eza"@),
        ],
    }
}

pub fn install_eza(d: Distro) -> (r: Vec<Step>)
    ensures
        steps_view(r@) == eza_plan(d),
{
    let mut p: Vec<Step> = Vec::new();
    put(&mut p, done_if("eza", "eza already installed"));
    match d {
        Distro::Ubuntu | Distro::OpenSuse | Distro::Fedora => {
            extend(&mut p, pkg1(d, "eza"));
        },
        Distro::Debian => {
            put(&mut p, sudo(&["apt", "update"], "apt update"));
            put(&mut p, sudo(&["apt", "install", "-y", "gpg"], "install gpg"));
            put(&mut p, sh(EZA_KEY, "add eza signing key"));
            put(&mut p, sh(EZA_REPO, "add eza apt repo"));
            put(&mut p, sh(EZA_CHMOD, "chmod eza repo files"));
            put(&mut p, sudo(&["apt", "update"], "apt update"));
            put(&mut p, sudo(&["apt", "install", "-y", "eza"], "install eza"));
        },
        _ => {
            put(&mut p, fail_unless("cargo", "no eza install for this OS (cargo missing)"));
            put(&mut p, run("cargo", &["install", "eza"], "cargo install eza"));
        },
    }
    proof {
        assert(steps_view(p@) =~= eza_plan(d));
    }
    p
}

/// The parts of the lazygit download script, around the version.
pub open spec fn lazygit_parts() -> Seq<&'static str> {
    seq![
        "curl -Lo lazygit.tar.gz \"https://github.com/jesseduffield/lazygit/releases/download/v",
        "/lazygit_",
        "_Linux_x86_64.tar.gz\" && tar xf lazygit.tar.gz lazygit && sudo install lazygit -D -t /usr/local/bin/ && rm -f lazygit lazygit.tar.gz",
    ]
}

/// lazygit: the latest release on Debian-like systems, a repository or copr
/// elsewhere.
pub open spec fn lazygit_plan(d: Distro) -> Seq<StepView> {
    let guard = seq![guard_cmd("lazygit"@, "lazygit already installed"@)];
    match d {
        Distro::Ubuntu | Distro::Debian => guard + seq![
            capture_step(
                LAZYGIT_VERSION_SCRIPT@,
                "fetch lazygit version"@,
                "could not determine latest lazygit version"@,
            ),
            template_step(lazygit_parts(), "install lazygit"@),
        ],
        Distro::OpenSuse => guard + seq![
            sudo_step(strs(seq!["zypper", "ar", LAZYGIT_REPO]), "add lazygit repo"@),
            sudo_step(strs(seq!["zypper", "ref"]), "zypper refresh"@),
            sudo_step(strs(seq!["zypper", "in", "lazygit"]), "install lazygit"@),
        ],
        Distro::Fedora => guard + seq![
            sudo_step(strs(seq!["dnf", "copr", "enable", "atim/lazygit", "-y"]), "enable lazygit copr"@),
            sudo_step(strs(seq!["dnf", "install", "lazygit"]), "install lazygit"@),
        ],
        Distro::Arch => guard + pkg_steps(d, seq!["lazygit"]),
        _ => guard + seq![fail_step("no lazygit install defined for this OS"@)],
    }
}

pub fn install_lazygit(d: Distro) -> (r: Vec<Step>)
    ensures
        steps_view(r@) == lazygit_plan(d),
{
    let mut p: Vec<Step> = Vec::new();
    put(&mut p, done_if("lazygit", "lazygit already installed"));
    match d {
        Distro::Ubuntu | Distro::Debian => {
            put(
                &mut p,
                capture(
                    LAZYGIT_VERSION_SCRIPT,
                    "fetch lazygit version",
                    "could not determine latest lazygit version",
                ),
            );
            let parts = [
                "curl -Lo lazygit.tar.gz \"https://github.com/jesseduffield/lazygit/releases/download/v",
                "/lazygit_",
                "_Linux_x86_64.tar.gz\" && tar xf lazygit.tar.gz lazygit && sudo install lazygit -D -t /usr/local/bin/ && rm -f lazygit lazygit.tar.gz",
            ];
            proof {
                assert(parts@ =~= lazygit_parts());
            }
            put(&mut p, sh_template(&parts, "install lazygit"));
        },
        Distro::OpenSuse => {
            put(&mut p, sudo(&["zypper", "ar", LAZYGIT_REPO], "add lazygit repo"));
            put(&mut p, sudo(&["zypper", "ref"], "zypper refresh"));
            put(&mut p, sudo(&["zypper", "in", "lazygit"], "install lazygit"));
        },
        Distro::Fedora => {
            put(
                &mut p,
                sudo(&["dnf", "copr", "enable", "atim/lazygit", "-y"], "enable lazygit copr"),
            );
            put(&mut p, sudo(&["dnf", "install", "lazygit"], "install lazygit"));
        },
        Distro::Arch => {
            extend(&mut p, pkg1(d, "lazygit"));
        },
        _ => {
            put(&mut p, fail("no lazygit install defined for this OS"));
        },
    }
    proof {
        assert(steps_view(p@) =~= lazygit_plan(d));
    }
    p
}

/// The steps that install a tool whose Debian package ships the command
/// under another name, and link it under the usual name in `~/.local/bin`.
pub open spec fn renamed_pkg_steps(
    d: Distro,
    home: Seq<char>,
    debian_pkg: &str,
    pkg_name: &str,
    shipped: Seq<char>,
    name: Seq<char>,
) -> Seq<StepView> {
    let local = path_join(home, ".local/bin"@);
    if is_debian_like(d) {
        pkg_steps(d, seq![debian_pkg]) + seq![
            StepView::MakeDirs { path: local },
            StepView::Link { source: shipped, link: path_join(local, name), label: name },
        ]
    } else {
        pkg_steps(d, seq![pkg_name])
    }
}

fn renamed_pkg(
    d: Distro,
    home: &str,
    debian_pkg: &str,
    pkg_name: &str,
    shipped: &str,
    name: &str,
) -> (r: Vec<Step>)
    ensures
        steps_view(r@) == renamed_pkg_steps(d, home@, debian_pkg, pkg_name, shipped@, name@),
{
    if d == Distro::Ubuntu || d == Distro::Debian {
        let mut p = pkg1(d, debian_pkg);
        let local = join(home, ".local/bin");
        let link = join(local.as_str(), name);
        put(&mut p, Step::MakeDirs { path: local });
        put(&mut p, Step::Link { source: owned(shipped), link, label: owned(name) });
        proof {
            assert(steps_view(p@) =~= renamed_pkg_steps(d, home@, debian_pkg, pkg_name, shipped@, name@));
        }
        p
    } else {
        pkg1(d, pkg_name)
    }
}

/// fzf, fd and bat, each only when missing.
pub open spec fn fzf_fd_bat_plan(d: Distro, home: Seq<char>) -> Seq<StepView> {
    let fzf = pkg_steps(d, seq!["fzf"]);
    let fd = renamed_pkg_steps(d, home, "fd-find", "fd", "/usr/bin/fdfind"@, "fd"@);
    let bat = renamed_pkg_steps(d, home, "bat", "bat", "/usr/bin/batcat"@, "bat"@);
    seq![skip_cmd("fzf"@, fzf.len())] + fzf + seq![skip_cmd("fd"@, fd.len())] + fd + seq![
        skip_cmd("bat"@, bat.len()),
    ] + bat + seq![done_step("fzf, fd and bat ready"@)]
}

pub fn install_fzf_fd_bat(d: Distro, home: &str) -> (r: Vec<Step>)
    ensures
        steps_view(r@) == fzf_fd_bat_plan(d, home@),
{
    let mut p: Vec<Step> = Vec::new();
    let fzf = pkg1(d, "fzf");
    put(&mut p, skip_if("fzf", fzf.len()));
    extend(&mut p, fzf);
    let fd = renamed_pkg(d, home, "fd-find", "fd", "/usr/bin/fdfind", "fd");
    put(&mut p, skip_if("fd", fd.len()));
    extend(&mut p, fd);
    let bat = renamed_pkg(d, home, "bat", "bat", "/usr/bin/batcat", "bat");
    put(&mut p, skip_if("bat", bat.len()));
    extend(&mut p, bat);
    put(&mut p, done("fzf, fd and bat ready"));
    proof {
        assert(steps_view(p@) =~= fzf_fd_bat_plan(d, home@));
    }
    p
}

/// An oh-my-zsh plugin cloned from its repository.
pub open spec fn plugin_plan(home: Seq<char>, name: Seq<char>, repo: Seq<char>) -> Seq<StepView> {
    let dir = path_join(home, ".oh-my-zsh/custom/plugins/"@ + name);
    path_script_plan(
        dir,
        name + " already installed"@,
        "git clone "@ + repo + " "@ + dir,
        "clone "@ + name,
        name + " installed"@,
    )
}

fn plugin_install(home: &str, name: &str, repo: &str) -> (r: Vec<Step>)
    ensures
        steps_view(r@) == plugin_plan(home@, name@, repo@),
{
    let rel = cat(".oh-my-zsh/custom/plugins/", name);
    let dir = join(home, rel.as_str());
    let mut script = crate::text::cat3("git clone ", repo, " ");
    script.append(dir.as_str());
    let present = cat(name, " already installed");
    let what = cat("clone ", name);
    let installed = cat(name, " installed");
    path_script_install(dir, present.as_str(), script, what.as_str(), installed.as_str())
}

/// The zsh-autosuggestions plugin.
pub open spec fn autosuggestions_plan(home: Seq<char>) -> Seq<StepView> {
    plugin_plan(
        home,
        "zsh-autosuggestions"@,
        "https://github.com/zsh-users/zsh-autosuggestions"@,
    )
}

pub fn install_zsh_autosuggestions(home: &str) -> (r: Vec<Step>)
    ensures
        steps_view(r@) == autosuggestions_plan(home@),
{
    plugin_install(home, "zsh-autosuggestions", "https://github.com/zsh-users/zsh-autosuggestions")
}

/// The zsh-ai plugin.
pub open spec fn zsh_ai_plan(home: Seq<char>) -> Seq<StepView> {
    plugin_plan(home, "zsh-ai"@, "https://github.com/matheusml/zsh-ai"@)
}

pub fn install_zsh_ai(home: &str) -> (r: Vec<Step>)
    ensures
        steps_view(r@) == zsh_ai_plan(home@),
{
    plugin_install(home, "zsh-ai", "https://github.com/matheusml/zsh-ai")
}

/// The parts of the bottom download script, around the version.
pub open spec fn bottom_parts() -> Seq<&'static str> {
    seq![
        "curl -LO \"https://github.com/ClementTsang/bottom/releases/download/",
        "/bottom_",
        "-1_amd64.deb\" && sudo dpkg -i bottom_",
        "-1_amd64.deb && rm -f bottom_",
        "-1_amd64.deb",
    ]
}

/// The steps that install bottom when it is missing.
pub open spec fn bottom_install_steps(d: Distro) -> Seq<StepView> {
    match d {
        Distro::Ubuntu | Distro::Debian => seq![
            capture_step(
                BOTTOM_VERSION_SCRIPT@,
                "fetch bottom version"@,
                "could not determine latest bottom version"@,
            ),
            template_step(bottom_parts(), "install bottom"@),
        ],
        Distro::OpenSuse => seq![
            sudo_step(strs(seq!["zypper", "install", "-y", "bottom"]), "install bottom"@),
        ],
        Distro::Fedora => seq![
            sudo_step(strs(seq!["dnf", "copr", "enable", "atim/bottom", "-y"]), "enable bottom copr"@),
            sudo_step(strs(seq!["dnf", "install", "-y", "bottom"]), "install bottom"@),
        ],
        Distro::Arch => pkg_steps(d, seq!["bottom"]),
        _ => seq![fail_step("no bottom install defined for this OS"@)],
    }
}

/// bottom, installed when missing, and then configured.
pub open spec fn bottom_plan(d: Distro, home: Seq<char>) -> Seq<StepView> {
    let install = bottom_install_steps(d);
    let dir = path_join(home, ".config/bottom"@);
    seq![skip_cmd("btm"@, install.len())] + install + seq![
        StepView::MakeDirs { path: dir },
        StepView::WriteFile {
            path: path_join(dir, "bottom.toml"@),
            contents: BOTTOM_CONFIG@,
            label: "bottom.toml"@,
        },
        done_step("bottom installed and configured"@),
    ]
}

fn bottom_install(d: Distro) -> (r: Vec<Step>)
    ensures
        steps_view(r@) == bottom_install_steps(d),
{
    let mut p: Vec<Step> = Vec::new();
    match d {
        Distro::Ubuntu | Distro::Debian => {
            put(
                &mut p,
                capture(
                    BOTTOM_VERSION_SCRIPT,
                    "fetch bottom version",
                    "could not determine latest bottom version",
                ),
            );
            let parts = [
                "curl -LO \"https://github.com/ClementTsang/bottom/releases/download/",
                "/bottom_",
                "-1_amd64.deb\" && sudo dpkg -i bottom_",
                "-1_amd64.deb && rm -f bottom_",
                "-1_amd64.deb",
            ];
            proof {
                assert(parts@ =~= bottom_parts());
            }
            put(&mut p, sh_template(&parts, "install bottom"));
        },
        Distro::OpenSuse => {
            put(&mut p, sudo(&["zypper", "install", "-y", "bottom"], "install bottom"));
        },
        Distro::Fedora => {
            put(
                &mut p,
                sudo(&["dnf", "copr", "enable", "atim/bottom", "-y"], "enable bottom copr"),
            );
            put(&mut p, sudo(&["dnf", "install", "-y", "bottom"], "install bottom"));
        },
        Distro::Arch => {
            return pkg1(d, "bottom");
        },
        _ => {
            put(&mut p, fail("no bottom install defined for this OS"));
        },
    }
    p
}

pub fn install_bottom(d: Distro, home: &str) -> (r: Vec<Step>)
    ensures
        steps_view(r@) == bottom_plan(d, home@),
{
    let mut p: Vec<Step> = Vec::new();
    let install = bottom_install(d);
    put(&mut p, skip_if("btm", install.len()));
    extend(&mut p, install);
    let dir = join(home, ".config/bottom");
    let file = join(dir.as_str(), "bottom.toml");
    put(&mut p, Step::MakeDirs { path: dir });
    put(
        &mut p,
        Step::WriteFile { path: file, contents: owned(BOTTOM_CONFIG), label: owned("bottom.toml") },
    );
    put(&mut p, done("bottom installed and configured"));
    proof {
        assert(steps_view(p@) =~= bottom_plan(d, home@));
    }
    p
}

/// The Bun runtime.
pub open spec fn bun_plan() -> Seq<StepView> {
    script_plan("bun"@, "bun already installed"@, BUN_SCRIPT@, "install bun"@, "bun installed"@)
}

pub fn install_bunjs() -> (r: Vec<Step>)
    ensures
        steps_view(r@) == bun_plan(),
{
    script_install("bun", "bun already installed", BUN_SCRIPT, "install bun", "bun installed")
}

/// SDKMAN!.
pub open spec fn sdkman_plan(home: Seq<char>) -> Seq<StepView> {
    path_script_plan(
        path_join(home, ".sdkman"@),
        "sdkman already installed"@,
        SDKMAN_SCRIPT@,
        "install sdkman"@,
        "sdkman installed"@,
    )
}

pub fn install_sdkman(home: &str) -> (r: Vec<Step>)
    ensures
        steps_view(r@) == sdkman_plan(home@),
{
    path_script_install(
        join(home, ".sdkman"),
        "sdkman already installed",
        owned(SDKMAN_SCRIPT),
        "install sdkman",
        "sdkman installed",
    )
}

/// Python 3 with pip, pipx when missing, and the usual aliases.
pub open spec fn python_plan(d: Distro, home: Seq<char>) -> Seq<StepView> {
    let guard = seq![guard_cmd("python3"@, "python already installed"@)];
    let tail = seq![
        skip_cmd("pipx"@, 1),
        sh_step(PIPX_SCRIPT@, "install pipx"@),
        append_step(home, "alias python=python3"@),
        append_step(home, "alias pip=pip3"@),
        done_step("python installed"@),
    ];
    match d {
        Distro::Ubuntu | Distro::Debian => guard + pkg_steps(
            d,
            seq![
                "python3",
                "python3-pip",
                "python3-venv",
                "build-essential",
                "libssl-dev",
                "libffi-dev",
                "python3-dev",
            ],
        ) + tail,
        Distro::OpenSuse => guard + pkg_steps(d, seq!["python3", "python3-pip", "python3-devel"])
            + tail,
        Distro::Fedora => guard + pkg_steps(d, seq!["python3", "python3-pip", "python3-devel"])
            + tail,
        Distro::Arch => guard + pkg_steps(d, seq!["python"]) + tail,
        _ => guard + seq![fail_step("no python install defined for this OS"@)],
    }
}

pub fn install_python(d: Distro, home: &str) -> (r: Vec<Step>)
    ensures
        steps_view(r@) == python_plan(d, home@),
{
    let mut p: Vec<Step> = Vec::new();
    put(&mut p, done_if("python3", "python already installed"));
    let deps = match d {
        Distro::Ubuntu | Distro::Debian => pkg(
            d,
            &[
                "python3",
                "python3-pip",
                "python3-venv",
                "build-essential",
                "libssl-dev",
                "libffi-dev",
                "python3-dev",
            ],
        ),
        Distro::OpenSuse | Distro::Fedora => pkg(d, &["python3", "python3-pip", "python3-devel"]),
        Distro::Arch => pkg1(d, "python"),
        _ => {
            put(&mut p, fail("no python install defined for this OS"));
            proof {
                assert(steps_view(p@) =~= python_plan(d, home@));
            }
            return p;
        },
    };
    extend(&mut p, deps);
    put(&mut p, skip_if("pipx", 1));
    put(&mut p, sh(PIPX_SCRIPT, "install pipx"));
    put(&mut p, append_zshrc(home, "alias python=python3"));
    put(&mut p, append_zshrc(home, "alias pip=pip3"));
    put(&mut p, done("python installed"));
    proof {
        assert(steps_view(p@) =~= python_plan(d, home@));
    }
    p
}

/// zoxide.
pub open spec fn zoxide_plan() -> Seq<StepView> {
    script_plan(
        "zoxide"@,
        "zoxide already installed"@,
        ZOXIDE_SCRIPT@,
        "install zoxide"@,
        "zoxide installed"@,
    )
}

pub fn install_zoxide() -> (r: Vec<Step>)
    ensures
        steps_view(r@) == zoxide_plan(),
{
    script_install("zoxide", "zoxide already installed", ZOXIDE_SCRIPT, "install zoxide", "zoxide installed")
}

/// The socket.dev command-line tool, through npm.
pub open spec fn socket_plan() -> Seq<StepView> {
    seq![
        guard_cmd("socket"@, "socket already installed"@),
        run_step("npm"@, strs(seq!["install", "-g", "socket"]), "install socket.dev CLI"@),
        done_step("socket.dev CLI installed"@),
    ]
}

pub fn install_socket() -> (r: Vec<Step>)
    ensures
        steps_view(r@) == socket_plan(),
{
    let mut p: Vec<Step> = Vec::new();
    put(&mut p, done_if("socket", "socket already installed"));
    put(&mut p, run("npm", &["install", "-g", "socket"], "install socket.dev CLI"));
    put(&mut p, done("socket.dev CLI installed"));
    p
}

/// The plan that installs the `i`-th tool of the catalogue on system `d`
/// for the user whose home directory is `home`.
pub open spec fn tool_plan(i: int, d: Distro, home: Seq<char>) -> Seq<StepView> {
    if i == 0 {
        dev_tools_plan(d)
    } else if i == 1 {
        rust_plan()
    } else if i == 2 {
        nvm_plan(home)
    } else if i == 3 {
        go_plan(home)
    } else if i == 4 {
        node_plan()
    } else if i == 5 {
        nvim_plan(d, home)
    } else if i == 6 {
        tmux_plan(d)
    } else if i == 7 {
        lsb_plan(d)
    } else if i == 8 {
        pnpm_plan()
    } else if i == 9 {
        ripgrep_plan(d)
    } else if i == 10 {
        eza_plan(d)
    } else if i == 11 {
        lazygit_plan(d)
    } else if i == 12 {
        fzf_fd_bat_plan(d, home)
    } else if i == 13 {
        autosuggestions_plan(home)
    } else if i == 14 {
        zsh_ai_plan(home)
    } else if i == 15 {
        bottom_plan(d, home)
    } else if i == 16 {
        bun_plan()
    } else if i == 17 {
        sdkman_plan(home)
    } else if i == 18 {
        python_plan(d, home)
    } else if i == 19 {
        zoxide_plan()
    } else {
        socket_plan()
    }
}

/// The plan that installs the `i`-th tool of the catalogue.
pub fn install_plan(i: usize, d: Distro, home: &str) -> (r: Vec<Step>)
    requires
        i < crate::tools::TOOL_COUNT,
    ensures
        steps_view(r@) == tool_plan(i as int, d, home@),
{
    if i == 0 {
        install_dev_tools(d)
    } else if i == 1 {
        install_rust()
    } else if i == 2 {
        install_nvm(home)
    } else if i == 3 {
        install_go(home)
    } else if i == 4 {
        install_node()
    } else if i == 5 {
        install_nvim(d, home)
    } else if i == 6 {
        install_tmux(d)
    } else if i == 7 {
        install_lsbrelease(d)
    } else if i == 8 {
        install_pnpm()
    } else if i == 9 {
        install_ripgrep(d)
    } else if i == 10 {
        install_eza(d)
    } else if i == 11 {
        install_lazygit(d)
    } else if i == 12 {
        install_fzf_fd_bat(d, home)
    } else if i == 13 {
        install_zsh_autosuggestions(home)
    } else if i == 14 {
        install_zsh_ai(home)
    } else if i == 15 {
        install_bottom(d, home)
    } else if i == 16 {
        install_bunjs()
    } else if i == 17 {
        install_sdkman(home)
    } else if i == 18 {
        install_python(d, home)
    } else if i == 19 {
        install_zoxide()
    } else {
        install_socket()
    }
}

} // verus!
