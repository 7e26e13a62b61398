//! The symbolic links that the dotfiles repository expects, how their state
//! is judged, and how they are shown.
use vstd::prelude::*;
use crate::text::{cat, cat3, join, owned, path_join};

verus! {

/// A link that should exist: `target` is the link, `source` what it points to.
#[derive(Debug, Clone)]
pub struct Symlink {
    pub name: &'static str,
    pub source: String,
    pub target: String,
}

/// The ghost counterpart of [`Symlink`].
pub struct SymlinkView {
    pub name: Seq<char>,
    pub source: Seq<char>,
    pub target: Seq<char>,
}

impl View for Symlink {
    type V = SymlinkView;

    open spec fn view(&self) -> SymlinkView {
        SymlinkView { name: self.name@, source: self.source@, target: self.target@ }
    }
}

/// What is found at a link's target.
#[derive(Debug, Clone, PartialEq, Eq)]
pub enum LinkState {
    /// A link pointing at the expected source.
    Correct,
    /// A link pointing elsewhere (where it points).
    WrongTarget(String),
    /// Something that is not a link.
    NotALink,
    /// Nothing, or a link that cannot be read.
    Missing,
}

/// The ghost counterpart of [`LinkState`].
pub enum LinkStateView {
    Correct,
    WrongTarget(Seq<char>),
    NotALink,
    Missing,
}

impl View for LinkState {
    type V = LinkStateView;

    open spec fn view(&self) -> LinkStateView {
        match self {
            LinkState::Correct => LinkStateView::Correct,
            LinkState::WrongTarget(p) => LinkStateView::WrongTarget(p@),
            LinkState::NotALink => LinkStateView::NotALink,
            LinkState::Missing => LinkStateView::Missing,
        }
    }
}

/// The links of the repository, for a home directory and a repository root.
pub open spec fn link_definitions(home: Seq<char>, df: Seq<char>) -> Seq<SymlinkView> {
    seq![
        SymlinkView {
            name: "nvim config"@,
            source: path_join(home, ".config/nvim"@),
            target: path_join(df, "nvim"@),
        },
        SymlinkView {
            name: ".zshrc"@,
            source: path_join(df, ".zshrc"@),
            target: path_join(home, ".zshrc"@),
        },
        SymlinkView {
            name: ".tmux.conf"@,
            source: path_join(df, ".tmux.conf"@),
            target: path_join(home, ".tmux.conf"@),
        },
        SymlinkView {
            name: "light-colors theme"@,
            source: path_join(df, "light-colors.zsh-theme"@),
            target: path_join(home, ".oh-my-zsh/themes/light-colors.zsh-theme"@),
        },
    ]
}

pub open spec fn links_view(v: Seq<Symlink>) -> Seq<SymlinkView> {
    v.map_values(|s: Symlink| s@)
}

/// The links the repository expects, given the home directory and the
/// repository root.
pub fn definitions(home: &str, dotfiles: &str) -> (r: Vec<Symlink>)
    ensures
        links_view(r@) == link_definitions(home@, dotfiles@),
{
    let v = vec![
        Symlink {
            name: "nvim config",
            source: join(home, ".config/nvim"),
            target: join(dotfiles, "nvim"),
        },
        Symlink { name: ".zshrc", source: join(dotfiles, ".zshrc"), target: join(home, ".zshrc") },
        Symlink {
            name: ".tmux.conf",
            source: join(dotfiles, ".tmux.conf"),
            target: join(home, ".tmux.conf"),
        },
        Symlink {
            name: "light-colors theme",
            source: join(dotfiles, "light-colors.zsh-theme"),
            target: join(home, ".oh-my-zsh/themes/light-colors.zsh-theme"),
        },
    ];
    proof {
        assert(links_view(v@) =~= link_definitions(home@, dotfiles@));
    }
    v
}

/// The path `Path::strip_prefix` leaves when `base` is removed from the
/// front of `path`, component by component; `None` when `base` is not a
/// prefix of `path`.
pub uninterp spec fn path_strip_prefix(path: Seq<char>, base: Seq<char>) -> Option<Seq<char>>;

/// Whether two paths are equal as `Path` compares them (component by
/// component).
pub uninterp spec fn same_path(a: Seq<char>, b: Seq<char>) -> bool;

pub open spec fn opt_text(o: Option<String>) -> Option<Seq<char>> {
    match o {
        Some(s) => Some(s@),
        None => None,
    }
}

/// Calls `std::path::Path::strip_prefix`; the result is the named
/// `path_strip_prefix` of the two paths. The remaining path is returned as
/// text (it came from text, so nothing is lost).
#[verifier::external_body]
fn strip_path_prefix(path: &str, base: &str) -> (r: Option<String>)
    ensures
        opt_text(r) == path_strip_prefix(path@, base@),
{
    std::path::Path::new(path).strip_prefix(base).ok().map(|p| p.to_string_lossy().into_owned())
}

/// Compares two paths with `std::path::Path`'s `==`; the result is the named
/// `same_path`, and the documentation's component-wise comparison makes two
/// equal texts equal paths.
#[verifier::external_body]
fn paths_equal(a: &str, b: &str) -> (r: bool)
    ensures
        r == same_path(a@, b@),
        a@ == b@ ==> r,
{
    std::path::Path::new(a) == std::path::Path::new(b)
}

/// How a path is shown: as is when `short` is the whole path, otherwise as
/// `~/` followed by the shortened form.
pub open spec fn pretty_text(short: Seq<char>, full: Seq<char>) -> Seq<char> {
    if same_path(short, full) {
        full
    } else {
        "~/"@ + short
    }
}

/// How a path is shown relative to the home directory.
pub open spec fn shown_path(full: Seq<char>, home: Seq<char>) -> Seq<char> {
    let short = match path_strip_prefix(full, home) {
        Some(r) => r,
        None => full,
    };
    pretty_text(short, full)
}

/// Shows `full` as is when `short` is the same path, else as `~/short`.
pub fn pretty(short: &str, full: &str) -> (r: String)
    ensures
        r@ == pretty_text(short@, full@),
        short@ == full@ ==> r@ == full@,
{
    if paths_equal(short, full) {
        owned(full)
    } else {
        cat("~/", short)
    }
}

fn shown(full: &str, home: &str) -> (r: String)
    ensures
        r@ == shown_path(full@, home@),
        path_strip_prefix(full@, home@) is None ==> r@ == full@,
{
    match strip_path_prefix(full, home) {
        Some(short) => pretty(short.as_str(), full),
        None => pretty(full, full),
    }
}

/// The link's target as shown to the user, relative to `home` when inside it.
pub fn target_str(s: &Symlink, home: &str) -> (r: String)
    ensures
        r@ == shown_path(s.target@, home@),
        path_strip_prefix(s.target@, home@) is None ==> r@ == s.target@,
{
    shown(s.target.as_str(), home)
}

/// The link's source as shown to the user, relative to `home` when inside it.
pub fn source_str(s: &Symlink, home: &str) -> (r: String)
    ensures
        r@ == shown_path(s.source@, home@),
        path_strip_prefix(s.source@, home@) is None ==> r@ == s.source@,
{
    shown(s.source.as_str(), home)
}

/// What is found at a link's target on disk.
#[derive(Debug, Clone, PartialEq, Eq)]
pub enum TargetProbe {
    /// Nothing could be found there.
    Absent,
    /// Something that is not a link.
    Other,
    /// A link; where it points, when that could be read.
    Link(Option<String>),
}

pub open spec fn link_state_of(source: Seq<char>, probe: TargetProbe) -> LinkStateView {
    match probe {
        TargetProbe::Absent => LinkStateView::Missing,
        TargetProbe::Other => LinkStateView::NotALink,
        TargetProbe::Link(None) => LinkStateView::Missing,
        TargetProbe::Link(Some(p)) => if same_path(p@, source) {
            LinkStateView::Correct
        } else {
            LinkStateView::WrongTarget(p@)
        },
    }
}

/// Judges a link from what was found at its target. A link that reads back
/// as exactly its source, as one just made does, is judged correct.
pub fn state_of(s: &Symlink, probe: TargetProbe) -> (r: LinkState)
    ensures
        r@ == link_state_of(s.source@, probe),
        probe matches TargetProbe::Link(Some(p)) && p@ == s.source@ ==> r@
            == LinkStateView::Correct,
{
    match probe {
        TargetProbe::Absent => LinkState::Missing,
        TargetProbe::Other => LinkState::NotALink,
        TargetProbe::Link(None) => LinkState::Missing,
        TargetProbe::Link(Some(p)) => {
            if paths_equal(p.as_str(), s.source.as_str()) {
                LinkState::Correct
            } else {
                LinkState::WrongTarget(p)
            }
        },
    }
}

/// Whether a link may be removed, given what is at its target: only a link
/// is removed; anything else is refused with a message.
pub fn remove_check(s: &Symlink, found: &TargetProbe) -> (r: Result<(), String>)
    ensures
        match found {
            TargetProbe::Link(_) => r is Ok,
            TargetProbe::Other => r matches Err(m) && m@ == s.target@
                + " exists but is not a symlink (refusing to remove)"@,
            TargetProbe::Absent => r matches Err(m) && m@ == s.target@ + " does not exist"@,
        },
{
    match found {
        TargetProbe::Link(_) => Ok(()),
        TargetProbe::Other => Err(
            cat(s.target.as_str(), " exists but is not a symlink (refusing to remove)"),
        ),
        TargetProbe::Absent => Err(cat(s.target.as_str(), " does not exist")),
    }
}

/// Whatever exists at the target (a link, even a dangling one, or any other
/// entry) has to be removed before the link is made.
pub fn must_clear(present: bool, is_link: bool) -> (r: bool)
    ensures
        r == (present || is_link),
{
    present || is_link
}

/// The message for a directory that could not be created.
pub fn mkdir_error(dir: &str, err: &str) -> (r: String)
    ensures
        r@ == "mkdir "@ + dir@ + ": "@ + err@,
{
    let mut m = cat3("mkdir ", dir, ": ");
    m.append(err);
    m
}

/// The message for a link that could not be removed.
pub fn remove_error(s: &Symlink, err: &str) -> (r: String)
    ensures
        r@ == "remove "@ + s.target@ + ": "@ + err@,
{
    let mut m = cat3("remove ", s.target.as_str(), ": ");
    m.append(err);
    m
}

/// The message for a link that could not be made.
pub fn link_error(s: &Symlink, err: &str) -> (r: String)
    ensures
        r@ == "symlink "@ + s.target@ + " -> "@ + s.source@ + ": "@ + err@,
{
    let mut m = cat3("symlink ", s.target.as_str(), " -> ");
    m.append(s.source.as_str());
    m.append(": ");
    m.append(err);
    m
}

} // verus!
