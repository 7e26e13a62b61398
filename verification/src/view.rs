//! What the screen shows, as text and colour names; drawing it is left to
//! the caller.
use vstd::prelude::*;
use crate::app::Level;
use crate::symlink::LinkState;
use crate::tab::Tab;
use crate::text::{cat, cat3, decimal, digits};
use crate::tools::TOOL_COUNT;

verus! {

/// The colours the interface uses.
#[derive(Debug, Clone, Copy, PartialEq, Eq, Structural)]
pub enum Tone {
    White,
    Cyan,
    Green,
    Red,
    Yellow,
    Gray,
    DarkGray,
}

/// The colour of a log line.
pub fn level_tone(level: Level) -> (r: Tone)
    ensures
        r == match level {
            Level::Info => Tone::White,
            Level::Command => Tone::Cyan,
            Level::Success => Tone::Green,
            Level::Error => Tone::Red,
        },
{
    match level {
        Level::Info => Tone::White,
        Level::Command => Tone::Cyan,
        Level::Success => Tone::Green,
        Level::Error => Tone::Red,
    }
}

/// The tick box of an Install row, and its colour.
pub fn check_box(checked: bool) -> (r: (&'static str, Tone))
    ensures
        r.0@ == (if checked {
            "[x]"@
        } else {
            "[ ]"@
        }),
        r.1 == (if checked {
            Tone::Green
        } else {
            Tone::DarkGray
        }),
{
    if checked {
        ("[x]", Tone::Green)
    } else {
        ("[ ]", Tone::DarkGray)
    }
}

/// The presence mark of an Install row, and its colour.
pub fn presence_mark(installed: bool) -> (r: (&'static str, Tone))
    ensures
        r.0@ == (if installed {
            " ✓ "@
        } else {
            " · "@
        }),
        r.1 == (if installed {
            Tone::Green
        } else {
            Tone::DarkGray
        }),
{
    if installed {
        (" ✓ ", Tone::Green)
    } else {
        (" · ", Tone::DarkGray)
    }
}

/// The presence column of the Status table, and its colour.
pub fn status_label(installed: bool) -> (r: (&'static str, Tone))
    ensures
        r.0@ == (if installed {
            "installed"@
        } else {
            "not installed"@
        }),
        r.1 == (if installed {
            Tone::Green
        } else {
            Tone::Yellow
        }),
{
    if installed {
        ("installed", Tone::Green)
    } else {
        ("not installed", Tone::Yellow)
    }
}

/// How the state of a link is labelled, and its colour.
pub fn link_label(state: &LinkState) -> (r: (&'static str, Tone))
    ensures
        match state {
            LinkState::Correct => r.0@ == "correct"@ && r.1 == Tone::Green,
            LinkState::WrongTarget(_) => r.0@ == "wrong target"@ && r.1 == Tone::Red,
            LinkState::NotALink => r.0@ == "not a symlink"@ && r.1 == Tone::Red,
            LinkState::Missing => r.0@ == "missing"@ && r.1 == Tone::Yellow,
        },
{
    match state {
        LinkState::Correct => ("correct", Tone::Green),
        LinkState::WrongTarget(_) => ("wrong target", Tone::Red),
        LinkState::NotALink => ("not a symlink", Tone::Red),
        LinkState::Missing => ("missing", Tone::Yellow),
    }
}

/// The keys of the current tab, shown at the bottom.
pub open spec fn hint_text(tab: Tab) -> Seq<char> {
    match tab {
        Tab::Install => "Space toggle  |  Enter install selected  |  a all  |  n none  |  i invert"@,
        Tab::Symlinks => "Enter/c create  |  r remove  |  R refresh"@,
        Tab::Configs => "j/k browse  |  Enter/e edit in $EDITOR"@,
        Tab::Status => "r/R refresh  |  Enter mark for install"@,
    }
}

/// The keys that work on every tab.
pub const GLOBAL_HINT: &'static str = "Tab switch  |  1-4 tabs  |  ? help  |  q quit";

/// The keys of the current tab.
pub fn help_hint(tab: Tab) -> (r: &'static str)
    ensures
        r@ == hint_text(tab),
{
    match tab {
        Tab::Install => "Space toggle  |  Enter install selected  |  a all  |  n none  |  i invert",
        Tab::Symlinks => "Enter/c create  |  r remove  |  R refresh",
        Tab::Configs => "j/k browse  |  Enter/e edit in $EDITOR",
        Tab::Status => "r/R refresh  |  Enter mark for install",
    }
}

/// The title of the Install list.
pub fn install_title() -> (r: String)
    ensures
        r@ == "Install  ("@ + digits(TOOL_COUNT as nat) + " tools)"@,
{
    let n = decimal(TOOL_COUNT as u64);
    cat3("Install  (", n.as_str(), " tools)")
}

/// The title of the preview pane.
pub fn preview_title(path: &Option<String>) -> (r: String)
    ensures
        r@ == "Preview: "@ + match path {
            Some(p) => p@,
            None => "(no file)"@,
        },
{
    match path {
        Some(p) => cat("Preview: ", p.as_str()),
        None => cat("Preview: ", "(no file)"),
    }
}

/// The title of the Status table.
pub fn status_title(distro: &str) -> (r: String)
    ensures
        r@ == "System status  (OS: "@ + distro@ + ")"@,
{
    cat3("System status  (OS: ", distro, ")")
}

/// Which log lines fit in a pane `height` rows tall (two rows go to the
/// border): the newest first.
pub open spec fn visible_lines(len: nat, height: int) -> Seq<usize> {
    let room = if height >= 2 {
        height - 2
    } else {
        0
    };
    let count = if room < len {
        room
    } else {
        len as int
    };
    Seq::new(count as nat, |k: int| (len - 1 - k) as usize)
}

/// The indices of the log lines shown in a pane `height` rows tall.
pub fn visible_log(len: usize, height: u16) -> (r: Vec<usize>)
    ensures
        r@ == visible_lines(len as nat, height as int),
{
    let room: usize = if height >= 2 {
        (height - 2) as usize
    } else {
        0
    };
    let count = if room < len {
        room
    } else {
        len
    };
    let mut out: Vec<usize> = Vec::new();
    let mut k: usize = 0;
    while k < count
        invariant
            count <= len,
            k <= count,
            out@ == Seq::new(k as nat, |j: int| (len - 1 - j) as usize),
        decreases count - k,
    {
        out.push(len - 1 - k);
        k = k + 1;
        proof {
            assert(out@ =~= Seq::new(k as nat, |j: int| (len - 1 - j) as usize));
        }
    }
    proof {
        assert(out@ =~= visible_lines(len as nat, height as int));
    }
    out
}

/// The log pane never shows more lines than fit, nor more than there are,
/// and shows the newest ones, newest first.
pub proof fn law_log_shows_newest_first(len: nat, height: int)
    requires
        len <= usize::MAX,
    ensures
        visible_lines(len, height).len() <= len,
        height >= 2 ==> visible_lines(len, height).len() <= height - 2,
        forall|k: int|
            0 <= k < visible_lines(len, height).len() ==> visible_lines(len, height)[k] as int
                == len - 1 - k,
{
}

} // verus!
