//! Properties of the interface that hold across key presses and runs.
use vstd::prelude::*;
use crate::app::{
    after_install_finish, after_move, app_wf, checked_indices, cursor, list_len, on_key,
    on_tab_key, set_indices_upto, wrap_move, AppView, Effect, Key, KeyCode, PendingView,
};
use crate::config::config_rel;
use crate::tab::Tab;
use crate::text::path_join;
use crate::tools::TOOL_COUNT;

verus! {

/// No key press can break the state's invariant: every list keeps one entry
/// per row and every cursor stays inside its list.
pub proof fn law_keys_keep_state_well_formed(v: AppView, key: Key)
    requires
        app_wf(v),
    ensures
        app_wf(on_key(v, key).0),
{
    let r = on_key(v, key).0;
    if !key.control {
        match key.code {
            KeyCode::Down | KeyCode::Char('j') => {
                lemma_move_in_range(v, 1);
            },
            KeyCode::Up | KeyCode::Char('k') => {
                lemma_move_in_range(v, -1);
            },
            _ => {},
        }
    }
}

proof fn lemma_move_in_range(v: AppView, delta: int)
    requires
        app_wf(v),
    ensures
        app_wf(after_move(v, delta).0),
{
    let len = list_len(v);
    let cur = match cursor(v) {
        Some(c) => c as int,
        None => 0,
    };
    let n = wrap_move(cur, len, delta);
    assert(0 <= n < len);
}

/// Moving the cursor down and then up, or up and then down, puts it back
/// where it was.
pub proof fn law_down_then_up_restores(v: AppView)
    requires
        app_wf(v),
        cursor(v) is Some,
    ensures
        after_move(after_move(v, 1).0, -1).0 == v,
        after_move(after_move(v, -1).0, 1).0 == v,
{
    let len = list_len(v);
    let c = cursor(v)->0 as int;
    let w = after_move(v, 1).0;
    assert(list_len(w) == len);
    assert(cursor(w) == Some(wrap_move(c, len, 1) as usize));
    assert(wrap_move(wrap_move(c, len, 1), len, -1) == c);
    let u = after_move(v, -1).0;
    assert(list_len(u) == len);
    assert(cursor(u) == Some(wrap_move(c, len, -1) as usize));
    assert(wrap_move(wrap_move(c, len, -1), len, 1) == c);
    match v.tab {
        Tab::Install => {
            assert(after_move(w, -1).0 == v);
            assert(after_move(u, 1).0 == v);
        },
        Tab::Symlinks => {
            assert(after_move(w, -1).0 == v);
            assert(after_move(u, 1).0 == v);
        },
        Tab::Configs => {
            assert(after_move(w, -1).0 == v);
            assert(after_move(u, 1).0 == v);
        },
        Tab::Status => {
            assert(after_move(w, -1).0 == v);
            assert(after_move(u, 1).0 == v);
        },
    }
}

/// The cursor wraps around: down from the last row reaches the first, up
/// from the first reaches the last.
pub proof fn law_cursor_wraps(v: AppView)
    requires
        app_wf(v),
    ensures
        cursor(v) == Some((list_len(v) - 1) as usize) ==> cursor(after_move(v, 1).0) == Some(
            0usize,
        ),
        cursor(v) == Some(0usize) ==> cursor(after_move(v, -1).0) == Some(
            (list_len(v) - 1) as usize,
        ),
{
}

/// `q`, and Control-C, ask the program to quit; any other key with Control
/// held changes nothing.
pub proof fn law_quit_keys(v: AppView, code: KeyCode)
    ensures
        on_key(v, Key { code: KeyCode::Char('q'), control: false }).0.should_quit,
        on_key(v, Key { code: KeyCode::Char('c'), control: true }).0.should_quit,
        code != KeyCode::Char('c') ==> on_key(v, Key { code, control: true }).0 == v,
{
}

/// `Tab` followed by `BackTab` returns to the same screen with nothing else
/// changed.
pub proof fn law_tab_backtab_restores(v: AppView)
    ensures
        on_key(
            on_key(v, Key { code: KeyCode::Tab, control: false }).0,
            Key { code: KeyCode::BackTab, control: false },
        ).0 == v,
{
}

/// On the Install tab, inverting the ticks twice restores them.
pub proof fn law_invert_twice_restores(v: AppView)
    requires
        v.tab == Tab::Install,
    ensures
        on_key(
            on_key(v, Key { code: KeyCode::Char('i'), control: false }).0,
            Key { code: KeyCode::Char('i'), control: false },
        ).0 == v,
{
    let k = Key { code: KeyCode::Char('i'), control: false };
    let once = on_key(v, k).0;
    let twice = on_key(once, k).0;
    assert(twice.install_checked =~= v.install_checked);
}

/// On the Install tab, the invert key flips every tick and nothing else, so
/// inverting twice restores the ticks.
pub proof fn law_invert_flips_every_tick(v: AppView)
    requires
        v.tab == Tab::Install,
    ensures
        on_tab_key(v, KeyCode::Char('i')).install_checked.len() == v.install_checked.len(),
        forall|j: int|
            0 <= j < v.install_checked.len() ==> #[trigger] on_tab_key(
                v,
                KeyCode::Char('i'),
            ).install_checked[j] == !v.install_checked[j],
        on_tab_key(v, KeyCode::Char('i')) == (AppView {
            install_checked: on_tab_key(v, KeyCode::Char('i')).install_checked,
            ..v
        }),
        on_tab_key(on_tab_key(v, KeyCode::Char('i')), KeyCode::Char('i')) == v,
{
    let once = on_tab_key(v, KeyCode::Char('i'));
    let twice = on_tab_key(once, KeyCode::Char('i'));
    assert(twice.install_checked =~= v.install_checked);
}

/// On the Symlinks tab, `r` queues the removal of the link under the cursor,
/// as the tab's help line says, and asks for no outside work at once.
pub proof fn law_r_on_symlinks_queues_removal(v: AppView, i: usize)
    requires
        v.tab == Tab::Symlinks,
        v.symlink_state == Some(i),
    ensures
        on_key(v, Key { code: KeyCode::Char('r'), control: false }) == (
            AppView { pending: Some(PendingView::RemoveSymlink(i)), ..v },
            Effect::Nothing,
        ),
{
}

/// On the Configs tab, Enter and `e` do the same thing: with the cursor on
/// a file, either queues editing that file of the repository, changes
/// nothing else and asks for no outside work at once.
pub proof fn law_config_enter_and_e_edit_the_file(v: AppView, i: usize)
    requires
        v.tab == Tab::Configs,
        v.config_state == Some(i),
    ensures
        on_key(v, Key { code: KeyCode::Enter, control: false }) == on_key(
            v,
            Key { code: KeyCode::Char('e'), control: false },
        ),
        on_key(v, Key { code: KeyCode::Enter, control: false }) == (
            AppView {
                pending: Some(PendingView::EditConfig(path_join(v.dotfiles, config_rel(i as int)))),
                ..v
            },
            Effect::Nothing,
        ),
        i == 0 ==> on_key(v, Key { code: KeyCode::Enter, control: false }).0.pending == Some(
            PendingView::EditConfig(path_join(v.dotfiles, ".zshrc"@)),
        ),
{
}

/// On the Install tab, `a` ticks every tool and `n` unticks every tool.
pub proof fn law_select_all_and_none(v: AppView)
    requires
        app_wf(v),
        v.tab == Tab::Install,
    ensures
        forall|j: int|
            0 <= j < TOOL_COUNT ==> #[trigger] on_key(
                v,
                Key { code: KeyCode::Char('a'), control: false },
            ).0.install_checked[j],
        forall|j: int|
            0 <= j < TOOL_COUNT ==> !#[trigger] on_key(
                v,
                Key { code: KeyCode::Char('n'), control: false },
            ).0.install_checked[j],
{
}

/// Enter on the Install tab, with the cursor on a tool, always queues an
/// installation run, and leaves at least one tool ticked.
pub proof fn law_enter_queues_install(v: AppView)
    requires
        app_wf(v),
        v.tab == Tab::Install,
        v.install_state is Some,
    ensures
        ({
            let r = on_key(v, Key { code: KeyCode::Enter, control: false }).0;
            &&& r.pending == Some(PendingView::RunSelectedInstalls)
            &&& exists|k: int| 0 <= k < r.install_checked.len() && r.install_checked[k]
        }),
{
    let r = on_key(v, Key { code: KeyCode::Enter, control: false }).0;
    let i = v.install_state->0;
    if !(exists|k: int| 0 <= k < v.install_checked.len() && v.install_checked[k]) {
        assert(r.install_checked[i as int]);
    } else {
        let k = choose|k: int| 0 <= k < v.install_checked.len() && v.install_checked[k];
        assert(r.install_checked[k]);
    }
}

/// Enter on the Status tab ticks the tool under the cursor and shows it on
/// the Install tab.
pub proof fn law_status_enter_marks_tool(v: AppView)
    requires
        app_wf(v),
        v.tab == Tab::Status,
        v.status_state is Some,
    ensures
        ({
            let i = v.status_state->0;
            let r = on_key(v, Key { code: KeyCode::Enter, control: false }).0;
            &&& r.tab == Tab::Install
            &&& r.install_state == Some(i)
            &&& r.install_checked[i as int]
            &&& r.log.len() == v.log.len() + 1
        }),
{
}

/// The selection of a run lists exactly the ticked tools, each once, in
/// increasing order.
pub proof fn law_selection_is_ticked_tools(s: Seq<bool>)
    requires
        s.len() <= usize::MAX,
    ensures
        forall|k: int|
            0 <= k < checked_indices(s).len() ==> {
                let i = #[trigger] checked_indices(s)[k];
                i < s.len() && s[i as int]
            },
        forall|a: int, b: int|
            0 <= a < b < checked_indices(s).len() ==> checked_indices(s)[a] < checked_indices(
                s,
            )[b],
        forall|j: int| 0 <= j < s.len() && s[j] ==> checked_indices(s).contains(j as usize),
{
    lemma_set_indices(s, s.len() as int);
}

proof fn lemma_set_indices(s: Seq<bool>, n: int)
    requires
        0 <= n <= s.len(),
        s.len() <= usize::MAX,
    ensures
        forall|k: int|
            0 <= k < set_indices_upto(s, n).len() ==> {
                let i = #[trigger] set_indices_upto(s, n)[k];
                i < n && s[i as int]
            },
        forall|a: int, b: int|
            0 <= a < b < set_indices_upto(s, n).len() ==> set_indices_upto(s, n)[a]
                < set_indices_upto(s, n)[b],
        forall|j: int| 0 <= j < n && s[j] ==> set_indices_upto(s, n).contains(j as usize),
    decreases n,
{
    if n > 0 {
        lemma_set_indices(s, n - 1);
        let r = set_indices_upto(s, n - 1);
        if s[n - 1] {
            let t = r.push((n - 1) as usize);
            assert(t[t.len() - 1] == (n - 1) as usize);
            assert forall|k: int| 0 <= k < t.len() implies {
                let i = #[trigger] t[k];
                i < n && s[i as int]
            } by {
                if k < r.len() {
                    assert(t[k] == r[k]);
                }
            }
            assert forall|a: int, b: int| 0 <= a < b < t.len() implies t[a] < t[b] by {
                assert(t[a] == r[a]);
                if b < r.len() {
                    assert(t[b] == r[b]);
                }
            }
            assert forall|j: int| 0 <= j < n && s[j] implies t.contains(j as usize) by {
                if j < n - 1 {
                    let k = choose|k: int| 0 <= k < r.len() && r[k] == j as usize;
                    assert(t[k] == j as usize);
                }
            }
        }
    }
}

/// After a run over the ticked tools has been reported, no tool is ticked
/// any more, and one log line per tool has been added.
pub proof fn law_run_unticks_everything(v: AppView, results: Seq<Result<String, String>>)
    requires
        app_wf(v),
        results.len() == checked_indices(v.install_checked).len(),
    ensures
        ({
            let r = after_install_finish(v, checked_indices(v.install_checked), results);
            &&& forall|j: int| 0 <= j < r.install_checked.len() ==> !r.install_checked[j]
            &&& r.log.len() == v.log.len() + results.len()
        }),
{
    law_selection_is_ticked_tools(v.install_checked);
}

/// Key presses never change what was found on the machine (tool presence,
/// link states), the links themselves, or where the repository is.
pub proof fn law_keys_leave_probes_alone(v: AppView, key: Key)
    ensures
        on_key(v, key).0.status == v.status,
        on_key(v, key).0.symlinks == v.symlinks,
        on_key(v, key).0.symlink_states == v.symlink_states,
        on_key(v, key).0.dotfiles == v.dotfiles,
        on_key(v, key).0.config_preview == v.config_preview,
{
}

/// The log only grows: a key press keeps every earlier line and adds at
/// most two.
pub proof fn law_log_only_grows(v: AppView, key: Key)
    ensures
        v.log.len() <= on_key(v, key).0.log.len() <= v.log.len() + 2,
        on_key(v, key).0.log.subrange(0, v.log.len() as int) == v.log,
{
    let r = on_key(v, key).0;
    assert(r.log.subrange(0, v.log.len() as int) =~= v.log);
}

} // verus!
