//! Properties of installation runs.
use vstd::prelude::*;
use crate::status::Distro;
use crate::installer::{
    answered, exec_result, fits, request_of, run_wf, started, AppendOutcome, RequestView, Reply,
    RunView, StepView,
};
use crate::text::trim_ws;
use crate::plans::tool_plan;
use crate::tools::{tool_name, QueryView, RunOutcome};

verus! {

/// The tools whose plan first checks whether the tool is already there.
pub open spec fn checks_presence_first(i: int) -> bool {
    i == 1 || i == 2 || i == 3 || i == 4 || i == 5 || i == 6 || i == 8 || i == 10 || i == 11 || i
        == 13 || i == 14 || i == 16 || i == 17 || i == 18 || i == 19 || i == 20
}

/// A run whose plan starts by checking for something stops, as soon as that
/// check finds it, with the check's message and without doing anything else.
pub proof fn law_guard_stops_run(plan: Seq<StepView>, q: QueryView, msg: Seq<char>)
    requires
        plan.len() > 0,
        plan[0] == (StepView::StopIf { query: q, when: true, outcome: Ok(msg) }),
    ensures
        started(plan).outcome is None,
        request_of(started(plan).plan[started(plan).pc], started(plan).version)
            == RequestView::Probe(q),
        answered(started(plan), Reply::Found(true)).outcome == Some(
            Ok::<Seq<char>, Seq<char>>(msg),
        ),
{
}

/// Installing a tool that is already there asks only whether it is there,
/// and reports "<name> already installed".
pub proof fn law_present_tool_is_left_alone(i: int, d: Distro, home: Seq<char>)
    requires
        checks_presence_first(i),
    ensures
        started(tool_plan(i, d, home)).outcome is None,
        request_of(started(tool_plan(i, d, home)).plan[0], seq![]) is Probe,
        answered(started(tool_plan(i, d, home)), Reply::Found(true)).outcome == Some(
            Ok::<Seq<char>, Seq<char>>(tool_name(i) + " already installed"@),
        ),
{
    let plan = tool_plan(i, d, home);
    assert(plan.len() > 0);
    assert(plan[0] is StopIf);
    let q = plan[0]->StopIf_query;
    let msg = tool_name(i) + " already installed"@;
    reveal_strlit(" already installed");
    if i == 13 || i == 14 {
    } else if i == 1 {
        reveal_strlit("rust");
        reveal_strlit("rust already installed");
        assert(msg =~= "rust already installed"@);
    } else if i == 2 {
        reveal_strlit("nvm");
        reveal_strlit("nvm already installed");
        assert(msg =~= "nvm already installed"@);
    } else if i == 3 {
        reveal_strlit("go");
        reveal_strlit("go already installed");
        assert(msg =~= "go already installed"@);
    } else if i == 4 {
        reveal_strlit("node");
        reveal_strlit("node already installed");
        assert(msg =~= "node already installed"@);
    } else if i == 5 {
        reveal_strlit("nvim");
        reveal_strlit("nvim already installed");
        assert(msg =~= "nvim already installed"@);
    } else if i == 6 {
        reveal_strlit("tmux");
        reveal_strlit("tmux already installed");
        assert(msg =~= "tmux already installed"@);
    } else if i == 8 {
        reveal_strlit("pnpm");
        reveal_strlit("pnpm already installed");
        assert(msg =~= "pnpm already installed"@);
    } else if i == 10 {
        reveal_strlit("eza");
        reveal_strlit("eza already installed");
        assert(msg =~= "eza already installed"@);
    } else if i == 11 {
        reveal_strlit("lazygit");
        reveal_strlit("lazygit already installed");
        assert(msg =~= "lazygit already installed"@);
    } else if i == 16 {
        reveal_strlit("bun");
        reveal_strlit("bun already installed");
        assert(msg =~= "bun already installed"@);
    } else if i == 17 {
        reveal_strlit("sdkman");
        reveal_strlit("sdkman already installed");
        assert(msg =~= "sdkman already installed"@);
    } else if i == 18 {
        reveal_strlit("python");
        reveal_strlit("python already installed");
        assert(msg =~= "python already installed"@);
    } else if i == 19 {
        reveal_strlit("zoxide");
        reveal_strlit("zoxide already installed");
        assert(msg =~= "zoxide already installed"@);
    } else if i == 20 {
        reveal_strlit("socket");
        reveal_strlit("socket already installed");
        assert(msg =~= "socket already installed"@);
    }
    assert(plan[0] == (StepView::StopIf { query: q, when: true, outcome: Ok(msg) }));
    law_guard_stops_run(plan, q, msg);
}

/// A command that fails ends the run at once, with an error that names the
/// command and tells how it failed.
pub proof fn law_failed_command_ends_run(r: RunView, o: RunOutcome)
    requires
        run_wf(r),
        r.outcome is None,
        r.plan[r.pc] is Exec,
        o != RunOutcome::Success,
    ensures
        answered(r, Reply::Ran(o)).outcome == Some(exec_result(r.plan[r.pc]->Exec_what, o)),
        exec_result(r.plan[r.pc]->Exec_what, o) is Err,
{
}

/// A command that succeeds moves the run on to the next step, remembering
/// "<what> completed" as the outcome so far.
pub proof fn law_successful_command_moves_on(r: RunView)
    requires
        run_wf(r),
        r.outcome is None,
        r.plan[r.pc] is Exec,
    ensures
        ({
            let a = answered(r, Reply::Ran(RunOutcome::Success));
            &&& a.pc == r.pc + 1
            &&& a.outcome is None ==> a.last == Ok::<Seq<char>, Seq<char>>(
                r.plan[r.pc]->Exec_what + " completed"@,
            )
            &&& a.plan == r.plan
        }),
{
}

/// Answering a step never leaves the machine in a state it cannot be in.
pub proof fn law_answer_keeps_run_consistent(r: RunView, reply: Reply)
    requires
        run_wf(r),
        r.outcome is None,
    ensures
        run_wf(answered(r, reply)),
{
}

/// A finished run stays finished with the same outcome.
pub proof fn law_finished_run_is_final(r: RunView)
    requires
        r.outcome is Some,
    ensures
        crate::installer::settle(r) == r,
{
}

/// On a system the installer does not know, tools that only come from the
/// package manager fail at once without running anything.
pub proof fn law_unknown_system_fails_at_once(i: int, home: Seq<char>)
    requires
        i == 0 || i == 7 || i == 9,
    ensures
        started(tool_plan(i, Distro::Other, home)).outcome matches Some(Err(_)),
        started(tool_plan(i, Distro::Macos, home)).outcome matches Some(Err(_)),
{
}

/// Whether `reply` to `step` ends the run at that step: a check that finds
/// what it stops on, or work that failed (a command that did not succeed, an
/// empty or failed capture, a failed append or file-system change).
pub open spec fn ends_run(step: StepView, reply: Reply) -> bool {
    match step {
        StepView::StopIf { when, .. } => match reply {
            Reply::Found(b) => b == when,
            _ => true,
        },
        StepView::SkipIf { .. } => false,
        StepView::Exec { .. } => match reply {
            Reply::Ran(RunOutcome::Success) => false,
            _ => true,
        },
        StepView::Capture { .. } => match reply {
            Reply::Output(Ok(out)) => trim_ws(out@).len() == 0,
            _ => true,
        },
        StepView::AppendLine { .. } => match reply {
            Reply::Appended(AppendOutcome::Done) => false,
            _ => true,
        },
        StepView::MakeDirs { .. } | StepView::Link { .. } | StepView::WriteFile { .. } => match reply {
            Reply::Io(Ok(_)) => false,
            _ => true,
        },
        StepView::Finish(_) => true,
    }
}

/// A run ends only where it should: on a step whose answer ends it, at a
/// `Finish` step (with that step's outcome), or past the last step (with the
/// outcome so far). Any other answer moves it forward over the same plan,
/// and it goes on.
pub proof fn law_run_ends_only_at_finish_end_or_failure(r: RunView, reply: Reply)
    requires
        run_wf(r),
        r.outcome is None,
        fits(r.plan[r.pc], reply),
    ensures
        ends_run(r.plan[r.pc], reply) ==> answered(r, reply).outcome is Some,
        !ends_run(r.plan[r.pc], reply) ==> ({
            let a = answered(r, reply);
            &&& a.plan == r.plan
            &&& a.pc > r.pc
            &&& a.pc <= r.plan.len()
            &&& (a.outcome is Some <==> (a.pc == r.plan.len() || r.plan[a.pc] is Finish))
            &&& a.pc == r.plan.len() ==> a.outcome == Some(a.last)
            &&& a.pc < r.plan.len() && r.plan[a.pc] is Finish ==> a.outcome == Some(
                r.plan[a.pc]->Finish_0,
            )
        }),
{
}

/// A directory made, a link made or a file written moves the run on to the
/// very next step, keeping the outcome so far and the captured version; the
/// run ends there only if that next step is the end of the plan or a
/// `Finish` step.
pub proof fn law_file_system_success_moves_on(r: RunView)
    requires
        run_wf(r),
        r.outcome is None,
        r.plan[r.pc] is MakeDirs || r.plan[r.pc] is Link || r.plan[r.pc] is WriteFile,
    ensures
        ({
            let a = answered(r, Reply::Io(Ok(())));
            &&& a.plan == r.plan
            &&& a.pc == r.pc + 1
            &&& a.last == r.last
            &&& a.version == r.version
            &&& a.outcome == if r.pc + 1 == r.plan.len() {
                Some(r.last)
            } else if r.plan[r.pc + 1] is Finish {
                Some(r.plan[r.pc + 1]->Finish_0)
            } else {
                None
            }
        }),
{
}

/// A run never goes back: each answer moves it forward or ends it, and its
/// plan never changes.
pub proof fn law_run_moves_forward(r: RunView, reply: Reply)
    requires
        run_wf(r),
        r.outcome is None,
        crate::installer::fits(r.plan[r.pc], reply),
    ensures
        answered(r, reply).plan == r.plan,
        answered(r, reply).outcome is Some || answered(r, reply).pc > r.pc,
{
}

} // verus!
