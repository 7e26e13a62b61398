//! The catalogue of installable tools: names, descriptions, and how to tell
//! whether a tool is already present.
use vstd::prelude::*;
use crate::text::{join, owned, path_join};

verus! {

/// How many tools the catalogue holds.
pub const TOOL_COUNT: usize = 21;

/// One entry of the catalogue.
#[derive(Debug, Clone, Copy)]
pub struct Tool {
    pub name: &'static str,
    pub desc: &'static str,
}

/// The name of the `i`-th tool.
pub open spec fn tool_name(i: int) -> Seq<char> {
    if i == 0 {
        "dev-tools"@
    } else if i == 1 {
        "rust"@
    } else if i == 2 {
        "nvm"@
    } else if i == 3 {
        "go"@
    } else if i == 4 {
        "node"@
    } else if i == 5 {
        "nvim"@
    } else if i == 6 {
        "tmux"@
    } else if i == 7 {
        "lsb-release"@
    } else if i == 8 {
        "pnpm"@
    } else if i == 9 {
        "ripgrep"@
    } else if i == 10 {
        "eza"@
    } else if i == 11 {
        "lazygit"@
    } else if i == 12 {
        "fzf+fd+bat"@
    } else if i == 13 {
        "zsh-autosuggestions"@
    } else if i == 14 {
        "zsh-ai"@
    } else if i == 15 {
        "bottom"@
    } else if i == 16 {
        "bun"@
    } else if i == 17 {
        "sdkman"@
    } else if i == 18 {
        "python"@
    } else if i == 19 {
        "zoxide"@
    } else {
        "socket"@
    }
}

/// The one-line description of the `i`-th tool.
pub open spec fn tool_desc(i: int) -> Seq<char> {
    if i == 0 {
        "Build tools, curl, git, jq (OS packages)"@
    } else if i == 1 {
        "Rust toolchain via rustup"@
    } else if i == 2 {
        "Node Version Manager"@
    } else if i == 3 {
        "Go toolchain (official tarball)"@
    } else if i == 4 {
        "Node.js LTS via nvm"@
    } else if i == 5 {
        "Neovim stable"@
    } else if i == 6 {
        "tmux built from source (sixel)"@
    } else if i == 7 {
        "lsb-release distro metadata"@
    } else if i == 8 {
        "pnpm package manager"@
    } else if i == 9 {
        "ripgrep (rg)"@
    } else if i == 10 {
        "Modern ls replacement"@
    } else if i == 11 {
        "TUI for git"@
    } else if i == 12 {
        "fuzzy finder, fd, bat"@
    } else if i == 13 {
        "zsh autosuggestions plugin"@
    } else if i == 14 {
        "zsh-ai plugin"@
    } else if i == 15 {
        "System monitor (btm)"@
    } else if i == 16 {
        "Bun JavaScript runtime"@
    } else if i == 17 {
        "SDKMAN! for JVM SDKs"@
    } else if i == 18 {
        "Python 3 + pipx"@
    } else if i == 19 {
        "Smarter cd"@
    } else {
        "socket.dev CLI"@
    }
}

fn entry(name: &'static str, desc: &'static str) -> (r: Tool)
    ensures
        r.name@ == name@,
        r.desc@ == desc@,
{
    Tool { name, desc }
}

/// The `i`-th tool of the catalogue.
pub fn tool(i: usize) -> (r: Tool)
    requires
        i < TOOL_COUNT,
    ensures
        r.name@ == tool_name(i as int),
        r.desc@ == tool_desc(i as int),
{
    if i == 0 {
        entry("dev-tools", "Build tools, curl, git, jq (OS packages)")
    } else if i == 1 {
        entry("rust", "Rust toolchain via rustup")
    } else if i == 2 {
        entry("nvm", "Node Version Manager")
    } else if i == 3 {
        entry("go", "Go toolchain (official tarball)")
    } else if i == 4 {
        entry("node", "Node.js LTS via nvm")
    } else if i == 5 {
        entry("nvim", "Neovim stable")
    } else if i == 6 {
        entry("tmux", "tmux built from source (sixel)")
    } else if i == 7 {
        entry("lsb-release", "lsb-release distro metadata")
    } else if i == 8 {
        entry("pnpm", "pnpm package manager")
    } else if i == 9 {
        entry("ripgrep", "ripgrep (rg)")
    } else if i == 10 {
        entry("eza", "Modern ls replacement")
    } else if i == 11 {
        entry("lazygit", "TUI for git")
    } else if i == 12 {
        entry("fzf+fd+bat", "fuzzy finder, fd, bat")
    } else if i == 13 {
        entry("zsh-autosuggestions", "zsh autosuggestions plugin")
    } else if i == 14 {
        entry("zsh-ai", "zsh-ai plugin")
    } else if i == 15 {
        entry("bottom", "System monitor (btm)")
    } else if i == 16 {
        entry("bun", "Bun JavaScript runtime")
    } else if i == 17 {
        entry("sdkman", "SDKMAN! for JVM SDKs")
    } else if i == 18 {
        entry("python", "Python 3 + pipx")
    } else if i == 19 {
        entry("zoxide", "Smarter cd")
    } else {
        entry("socket", "socket.dev CLI")
    }
}

/// A fact about the machine that the program asks the outside world about.
#[derive(Debug, Clone, PartialEq, Eq)]
pub enum Query {
    /// Whether a command is found on the `PATH`.
    CommandExists(String),
    /// Whether something exists at this path.
    PathExists(String),
}

/// The ghost counterpart of [`Query`].
pub enum QueryView {
    CommandExists(Seq<char>),
    PathExists(Seq<char>),
}

impl View for Query {
    type V = QueryView;

    open spec fn view(&self) -> QueryView {
        match self {
            Query::CommandExists(c) => QueryView::CommandExists(c@),
            Query::PathExists(p) => QueryView::PathExists(p@),
        }
    }
}

/// How the presence of a tool is decided from the answers to its queries.
#[derive(Debug, Clone, Copy, PartialEq, Eq, Structural)]
pub enum Verdict {
    /// Present when any query is answered yes.
    Any,
    /// Present when every query is answered yes.
    All,
}

/// The queries that decide whether the `i`-th tool is present, in the order
/// they are asked, and how their answers combine.
pub open spec fn probe(i: int, home: Seq<char>) -> (Seq<QueryView>, Verdict) {
    if i == 0 {
        (seq![QueryView::CommandExists("gcc"@), QueryView::CommandExists("make"@)], Verdict::Any)
    } else if i == 1 {
        (seq![QueryView::CommandExists("rustc"@)], Verdict::All)
    } else if i == 2 {
        (seq![QueryView::PathExists(path_join(home, ".nvm"@))], Verdict::All)
    } else if i == 3 {
        (seq![QueryView::CommandExists("go"@)], Verdict::All)
    } else if i == 4 {
        (seq![QueryView::CommandExists("node"@)], Verdict::All)
    } else if i == 5 {
        (seq![QueryView::CommandExists("nvim"@)], Verdict::All)
    } else if i == 6 {
        (seq![QueryView::CommandExists("tmux"@)], Verdict::All)
    } else if i == 7 {
        (seq![QueryView::CommandExists("lsb_release"@)], Verdict::All)
    } else if i == 8 {
        (seq![QueryView::CommandExists("pnpm"@)], Verdict::All)
    } else if i == 9 {
        (seq![QueryView::CommandExists("rg"@)], Verdict::All)
    } else if i == 10 {
        (seq![QueryView::CommandExists("eza"@)], Verdict::All)
    } else if i == 11 {
        (seq![QueryView::CommandExists("lazygit"@)], Verdict::All)
    } else if i == 12 {
        (
            seq![
                QueryView::CommandExists("fzf"@),
                QueryView::CommandExists("fd"@),
                QueryView::CommandExists("bat"@),
            ],
            Verdict::All,
        )
    } else if i == 13 {
        (
            seq![
                QueryView::PathExists(
                    path_join(home, ".oh-my-zsh/custom/plugins/zsh-autosuggestions"@),
                ),
            ],
            Verdict::All,
        )
    } else if i == 14 {
        (
            seq![QueryView::PathExists(path_join(home, ".oh-my-zsh/custom/plugins/zsh-ai"@))],
            Verdict::All,
        )
    } else if i == 15 {
        (seq![QueryView::CommandExists("btm"@)], Verdict::All)
    } else if i == 16 {
        (seq![QueryView::CommandExists("bun"@)], Verdict::All)
    } else if i == 17 {
        (seq![QueryView::PathExists(path_join(home, ".sdkman"@))], Verdict::All)
    } else if i == 18 {
        (seq![QueryView::CommandExists("python3"@)], Verdict::All)
    } else if i == 19 {
        (seq![QueryView::CommandExists("zoxide"@)], Verdict::All)
    } else {
        (seq![QueryView::CommandExists("socket"@)], Verdict::All)
    }
}

pub open spec fn queries_view(q: Seq<Query>) -> Seq<QueryView> {
    q.map_values(|x: Query| x@)
}

fn cmd(c: &str) -> (r: Query)
    ensures
        r@ == QueryView::CommandExists(c@),
{
    Query::CommandExists(owned(c))
}

fn under_home(home: &str, rel: &str) -> (r: Query)
    ensures
        r@ == QueryView::PathExists(path_join(home@, rel@)),
{
    Query::PathExists(join(home, rel))
}

fn one(q: Query) -> (r: (Vec<Query>, Verdict))
    ensures
        queries_view(r.0@) == seq![q@],
        r.1 == Verdict::All,
{
    let v = vec![q];
    proof {
        assert(queries_view(v@) =~= seq![q@]);
    }
    (v, Verdict::All)
}

/// The queries that tell whether the `i`-th tool is already present, and how
/// their answers combine.
pub fn tool_probe(i: usize, home: &str) -> (r: (Vec<Query>, Verdict))
    requires
        i < TOOL_COUNT,
    ensures
        (queries_view(r.0@), r.1) == probe(i as int, home@),
{
    if i == 0 {
        let v = vec![cmd("gcc"), cmd("make")];
        proof {
            assert(queries_view(v@) =~= probe(0, home@).0);
        }
        (v, Verdict::Any)
    } else if i == 1 {
        one(cmd("rustc"))
    } else if i == 2 {
        one(under_home(home, ".nvm"))
    } else if i == 3 {
        one(cmd("go"))
    } else if i == 4 {
        one(cmd("node"))
    } else if i == 5 {
        one(cmd("nvim"))
    } else if i == 6 {
        one(cmd("tmux"))
    } else if i == 7 {
        one(cmd("lsb_release"))
    } else if i == 8 {
        one(cmd("pnpm"))
    } else if i == 9 {
        one(cmd("rg"))
    } else if i == 10 {
        one(cmd("eza"))
    } else if i == 11 {
        one(cmd("lazygit"))
    } else if i == 12 {
        let v = vec![cmd("fzf"), cmd("fd"), cmd("bat")];
        proof {
            assert(queries_view(v@) =~= probe(12, home@).0);
        }
        (v, Verdict::All)
    } else if i == 13 {
        one(under_home(home, ".oh-my-zsh/custom/plugins/zsh-autosuggestions"))
    } else if i == 14 {
        one(under_home(home, ".oh-my-zsh/custom/plugins/zsh-ai"))
    } else if i == 15 {
        one(cmd("btm"))
    } else if i == 16 {
        one(cmd("bun"))
    } else if i == 17 {
        one(under_home(home, ".sdkman"))
    } else if i == 18 {
        one(cmd("python3"))
    } else if i == 19 {
        one(cmd("zoxide"))
    } else {
        one(cmd("socket"))
    }
}

/// Whether a tool counts as present, given the answers to its queries.
pub open spec fn verdict_holds(v: Verdict, answers: Seq<bool>) -> bool {
    match v {
        Verdict::Any => exists|k: int| 0 <= k < answers.len() && answers[k],
        Verdict::All => forall|k: int| 0 <= k < answers.len() ==> answers[k],
    }
}

/// Combines the answers to a tool's queries into whether it is present.
pub fn decide(v: Verdict, answers: &Vec<bool>) -> (r: bool)
    ensures
        r == verdict_holds(v, answers@),
{
    let n = answers.len();
    let mut i: usize = 0;
    while i < n
        invariant
            n == answers@.len(),
            i <= n,
            v == Verdict::Any ==> forall|k: int| 0 <= k < i ==> !answers@[k],
            v == Verdict::All ==> forall|k: int| 0 <= k < i ==> answers@[k],
        decreases n - i,
    {
        match v {
            Verdict::Any => {
                if answers[i] {
                    return true;
                }
            },
            Verdict::All => {
                if !answers[i] {
                    return false;
                }
            },
        }
        i = i + 1;
    }
    match v {
        Verdict::Any => false,
        Verdict::All => true,
    }
}

/// A program to start, with its arguments.
#[derive(Debug, Clone, PartialEq, Eq)]
pub struct Invocation {
    pub program: String,
    pub args: Vec<String>,
}

/// The ghost counterpart of [`Invocation`].
pub struct InvocationView {
    pub program: Seq<char>,
    pub args: Seq<Seq<char>>,
}

pub open spec fn texts_view(v: Seq<String>) -> Seq<Seq<char>> {
    v.map_values(|s: String| s@)
}

impl View for Invocation {
    type V = InvocationView;

    open spec fn view(&self) -> InvocationView {
        InvocationView { program: self.program@, args: texts_view(self.args@) }
    }
}

/// How a started program ended.
#[derive(Debug, Clone, PartialEq, Eq)]
pub enum RunOutcome {
    /// It exited with status zero.
    Success,
    /// It ended otherwise, with this exit code when it had one.
    Exited(Option<i32>),
    /// It could not be started; the reason.
    LaunchFailed(String),
}

} // verus!
