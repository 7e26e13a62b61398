//! The tabs of the interface and how the user cycles through them.
use vstd::prelude::*;

verus! {

/// The four screens of the interface, in display order.
#[derive(Debug, Clone, Copy, PartialEq, Eq, Structural)]
pub enum Tab {
    Install,
    Symlinks,
    Configs,
    Status,
}

/// Position of a tab in display order.
pub open spec fn tab_index(t: Tab) -> int {
    match t {
        Tab::Install => 0,
        Tab::Symlinks => 1,
        Tab::Configs => 2,
        Tab::Status => 3,
    }
}

/// The tab at a position in display order (taken modulo four).
pub open spec fn tab_at(i: int) -> Tab {
    let k = i % 4;
    if k == 0 {
        Tab::Install
    } else if k == 1 {
        Tab::Symlinks
    } else if k == 2 {
        Tab::Configs
    } else {
        Tab::Status
    }
}

/// The tab shown after `t`, wrapping from the last back to the first.
pub open spec fn tab_after(t: Tab) -> Tab {
    tab_at(tab_index(t) + 1)
}

/// The tab shown before `t`, wrapping from the first back to the last.
pub open spec fn tab_before(t: Tab) -> Tab {
    tab_at(tab_index(t) + 3)
}

/// The title shown for a tab.
pub open spec fn tab_title(t: Tab) -> Seq<char> {
    match t {
        Tab::Install => "Install"@,
        Tab::Symlinks => "Symlinks"@,
        Tab::Configs => "Configs"@,
        Tab::Status => "Status"@,
    }
}

impl Tab {
    /// The title shown in the tab bar.
    pub fn title(self) -> (r: &'static str)
        ensures
            r@ == tab_title(self),
    {
        match self {
            Tab::Install => "Install",
            Tab::Symlinks => "Symlinks",
            Tab::Configs => "Configs",
            Tab::Status => "Status",
        }
    }

    /// Every tab, in display order.
    pub fn all() -> (r: [Tab; 4])
        ensures
            forall|i: int| 0 <= i < 4 ==> r@[i] == tab_at(i) && tab_index(#[trigger] r@[i]) == i,
    {
        [Tab::Install, Tab::Symlinks, Tab::Configs, Tab::Status]
    }

    /// The tab that follows `self`, wrapping from the last back to the first.
    pub fn next(self) -> (r: Tab)
        ensures
            r == tab_after(self),
            tab_index(r) == (tab_index(self) + 1) % 4,
    {
        match self {
            Tab::Install => Tab::Symlinks,
            Tab::Symlinks => Tab::Configs,
            Tab::Configs => Tab::Status,
            Tab::Status => Tab::Install,
        }
    }

    /// The tab that precedes `self`, wrapping from the first back to the last.
    pub fn prev(self) -> (r: Tab)
        ensures
            r == tab_before(self),
            tab_index(r) == (tab_index(self) + 3) % 4,
    {
        match self {
            Tab::Install => Tab::Status,
            Tab::Symlinks => Tab::Install,
            Tab::Configs => Tab::Symlinks,
            Tab::Status => Tab::Configs,
        }
    }

    /// The position of the tab in display order.
    pub fn index(self) -> (r: usize)
        ensures
            r as int == tab_index(self),
    {
        match self {
            Tab::Install => 0,
            Tab::Symlinks => 1,
            Tab::Configs => 2,
            Tab::Status => 3,
        }
    }
}

/// Moving to the next tab and then to the previous one returns to where one
/// started, and the other way round too.
pub proof fn law_next_prev_inverse(t: Tab)
    ensures
        tab_before(tab_after(t)) == t,
        tab_after(tab_before(t)) == t,
{
}

/// Pressing "next tab" four times comes back to the starting tab, and no
/// fewer presses do.
pub proof fn law_next_cycles_through_all(t: Tab)
    ensures
        tab_after(tab_after(tab_after(tab_after(t)))) == t,
        tab_after(t) != t,
        tab_after(tab_after(t)) != t,
        tab_after(tab_after(tab_after(t))) != t,
{
}

/// Every tab has its own title.
pub proof fn law_titles_distinct(a: Tab, b: Tab)
    requires
        a != b,
    ensures
        tab_title(a) != tab_title(b),
{
    reveal_strlit("Install");
    reveal_strlit("Symlinks");
    reveal_strlit("Configs");
    reveal_strlit("Status");
    assert(tab_title(Tab::Install).len() == 7);
    assert(tab_title(Tab::Symlinks).len() == 8);
    assert(tab_title(Tab::Configs).len() == 7);
    assert(tab_title(Tab::Status).len() == 6);
    assert(tab_title(Tab::Install)[0] != tab_title(Tab::Configs)[0]);
}

} // verus!
