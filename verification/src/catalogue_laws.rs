//! Properties of the catalogue: what each tool's presence check asks, what
//! installing tmux ends with, and where the expected links live.
use vstd::prelude::*;
use crate::installer::{CommandView, PieceView, StepView};
use crate::plans::{tool_plan, TMUX_BUILD};
use crate::status::Distro;
use crate::symlink::link_definitions;
use crate::text::path_join;
use crate::tools::{probe, tool_desc, QueryView, Verdict};

verus! {

/// The systems the installer has package lists for.
pub open spec fn known_system(d: Distro) -> bool {
    d == Distro::Ubuntu || d == Distro::Debian || d == Distro::OpenSuse || d == Distro::Fedora
        || d == Distro::Arch
}

/// The tools whose plan starts by asking whether the tool is already there.
pub open spec fn guarded_tool(i: int) -> bool {
    i == 1 || i == 2 || i == 3 || i == 4 || i == 5 || i == 6 || i == 8 || i == 10 || i == 11 || i
        == 16 || i == 17 || i == 18 || i == 19 || i == 20
}

/// A tool that its plan first checks for is shown as present by exactly the
/// same question: the presence check asks what the plan's first step asks,
/// and nothing else.
pub proof fn law_presence_check_matches_install_guard(i: int, d: Distro, home: Seq<char>)
    requires
        guarded_tool(i),
    ensures
        tool_plan(i, d, home).len() > 0,
        tool_plan(i, d, home)[0] is StopIf,
        probe(i, home) == (
            seq![tool_plan(i, d, home)[0]->StopIf_query],
            Verdict::All,
        ),
{
}

/// ripgrep and bottom ship commands named otherwise than the tool; the
/// presence check asks for the command that the tool's description names in
/// brackets (`rg`, `btm`), and only for it.
pub proof fn law_presence_check_asks_for_the_shipped_command(home: Seq<char>)
    ensures
        probe(9, home) == (seq![QueryView::CommandExists("rg"@)], Verdict::All),
        tool_desc(9) == "ripgrep ("@ + "rg"@ + ")"@,
        probe(15, home) == (seq![QueryView::CommandExists("btm"@)], Verdict::All),
        tool_desc(15) == "System monitor ("@ + "btm"@ + ")"@,
{
    reveal_strlit("ripgrep (");
    reveal_strlit("rg");
    reveal_strlit(")");
    reveal_strlit("ripgrep (rg)");
    assert(tool_desc(9) =~= "ripgrep ("@ + "rg"@ + ")"@);
    reveal_strlit("System monitor (");
    reveal_strlit("btm");
    reveal_strlit("System monitor (btm)");
    assert(tool_desc(15) =~= "System monitor ("@ + "btm"@ + ")"@);
}

/// On every system the installer knows, installing tmux ends by building it
/// from source with the build script and only then reports success; no step
/// before can skip the build or end the run with success.
pub proof fn law_tmux_is_built_from_source(d: Distro, home: Seq<char>)
    requires
        known_system(d),
    ensures
        ({
            let p = tool_plan(6, d, home);
            &&& p.len() >= 3
            &&& p[p.len() - 2] == (StepView::Exec {
                command: CommandView::Shell(seq![PieceView::Text(TMUX_BUILD@)]),
                what: "build tmux from source"@,
            })
            &&& p[p.len() - 1] == StepView::Finish(
                Ok::<Seq<char>, Seq<char>>("tmux built from source with sixel support"@),
            )
            &&& forall|k: int| 0 <= k < p.len() - 1 ==> !(#[trigger] p[k] is Finish)
            &&& forall|k: int| 0 <= k < p.len() ==> !(#[trigger] p[k] is SkipIf)
        }),
{
    let p = tool_plan(6, d, home);
    assert(p.len() >= 3);
    assert forall|k: int| 0 <= k < p.len() - 1 implies !(#[trigger] p[k] is Finish) by {}
    assert forall|k: int| 0 <= k < p.len() implies !(#[trigger] p[k] is SkipIf) by {}
}

/// On every system the installer knows, installing fzf, fd and bat asks in
/// turn whether each of the three is there, never skips past the final
/// report, and ends only by reporting all three ready.
pub proof fn law_fzf_fd_bat_covers_all_three(d: Distro, home: Seq<char>)
    requires
        known_system(d),
    ensures
        ({
            let p = tool_plan(12, d, home);
            &&& p.len() >= 4
            &&& p[p.len() - 1] == StepView::Finish(
                Ok::<Seq<char>, Seq<char>>("fzf, fd and bat ready"@),
            )
            &&& forall|k: int| 0 <= k < p.len() - 1 ==> !(#[trigger] p[k] is Finish)
            &&& forall|k: int|
                0 <= k < p.len() && #[trigger] p[k] is SkipIf ==> k + 1 + p[k]->SkipIf_count
                    <= p.len() - 1
            &&& exists|a: int, b: int, c: int|
                0 <= a < b < c < p.len() - 1 && #[trigger] p[a] == (StepView::SkipIf {
                    query: QueryView::CommandExists("fzf"@),
                    count: p[a]->SkipIf_count,
                }) && #[trigger] p[b] == (StepView::SkipIf {
                    query: QueryView::CommandExists("fd"@),
                    count: p[b]->SkipIf_count,
                }) && #[trigger] p[c] == (StepView::SkipIf {
                    query: QueryView::CommandExists("bat"@),
                    count: p[c]->SkipIf_count,
                })
        }),
{
    let p = tool_plan(12, d, home);
    let fzf = crate::plans::pkg_steps(d, seq!["fzf"]);
    let fd = crate::plans::renamed_pkg_steps(d, home, "fd-find", "fd", "/usr/bin/fdfind"@, "fd"@);
    let bat = crate::plans::renamed_pkg_steps(d, home, "bat", "bat", "/usr/bin/batcat"@, "bat"@);
    let a: int = 0;
    let b: int = fzf.len() as int + 1;
    let c: int = fzf.len() + fd.len() as int + 2;
    assert(p.len() == fzf.len() + fd.len() + bat.len() + 4);
    assert forall|k: int| 0 <= k < p.len() - 1 implies !(#[trigger] p[k] is Finish) by {}
    assert forall|k: int| 0 <= k < p.len() && #[trigger] p[k] is SkipIf implies k + 1
        + p[k]->SkipIf_count <= p.len() - 1 by {}
    assert(p[a] is SkipIf && p[b] is SkipIf && p[c] is SkipIf);
}

/// The shell configuration, the tmux configuration and the prompt theme are
/// linked in the home directory and point into the repository; the editor
/// configuration goes the other way: the link is the repository's `nvim`
/// and points at `~/.config/nvim`.
pub proof fn law_links_point_into_the_repository(home: Seq<char>, df: Seq<char>)
    ensures
        link_definitions(home, df).len() == 4,
        link_definitions(home, df)[0].source == path_join(home, ".config/nvim"@),
        link_definitions(home, df)[0].target == path_join(df, "nvim"@),
        link_definitions(home, df)[1].source == path_join(df, ".zshrc"@),
        link_definitions(home, df)[1].target == path_join(home, ".zshrc"@),
        link_definitions(home, df)[2].source == path_join(df, ".tmux.conf"@),
        link_definitions(home, df)[2].target == path_join(home, ".tmux.conf"@),
        link_definitions(home, df)[3].source == path_join(df, "light-colors.zsh-theme"@),
        link_definitions(home, df)[3].target == path_join(
            home,
            ".oh-my-zsh/themes/light-colors.zsh-theme"@,
        ),
        forall|j: int|
            1 <= j <= 2 ==> (#[trigger] link_definitions(home, df)[j]).target == path_join(
                home,
                link_definitions(home, df)[j].name,
            ) && link_definitions(home, df)[j].source == path_join(
                df,
                link_definitions(home, df)[j].name,
            ),
{
}

} // verus!
