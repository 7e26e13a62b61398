//! Installation plans and the machine that carries one out.
//!
//! An installation is a list of [`Step`]s.  The [`Installer`] walks through
//! it: for each step it names the outside work to do (a [`Request`]), takes
//! what came of it (a [`Reply`]) and decides how to go on, until the plan
//! ends with a success message or an error.
use vstd::prelude::*;
use crate::text::{cat, cat3, code_text, code_to_text, owned, trim, trim_ws};
use crate::tools::{texts_view, Invocation, InvocationView, Query, QueryView, RunOutcome};

verus! {

/// The outcome of an installation: a success message or an error message.
pub type Res = Result<String, String>;

/// The ghost counterpart of [`Res`].
pub type ResView = Result<Seq<char>, Seq<char>>;

pub open spec fn res_view(r: Res) -> ResView {
    match r {
        Ok(m) => Ok(m@),
        Err(m) => Err(m@),
    }
}

/// A piece of a shell script: fixed text, or the version captured earlier.
#[derive(Debug)]
pub enum Piece {
    Text(String),
    Version,
}

pub enum PieceView {
    Text(Seq<char>),
    Version,
}

impl View for Piece {
    type V = PieceView;

    open spec fn view(&self) -> PieceView {
        match self {
            Piece::Text(t) => PieceView::Text(t@),
            Piece::Version => PieceView::Version,
        }
    }
}

pub open spec fn pieces_view(v: Seq<Piece>) -> Seq<PieceView> {
    v.map_values(|p: Piece| p@)
}

/// A script made of fixed parts with the captured version between each two.
pub open spec fn template(parts: Seq<&str>) -> Seq<PieceView>
    decreases parts.len(),
{
    if parts.len() == 0 {
        seq![]
    } else if parts.len() == 1 {
        seq![PieceView::Text(parts[0]@)]
    } else {
        template(parts.drop_last()) + seq![PieceView::Version, PieceView::Text(parts.last()@)]
    }
}

/// The pieces of a script made of `parts` with the version between each two.
pub fn build_template(parts: &[&str]) -> (r: Vec<Piece>)
    requires
        parts@.len() > 0,
    ensures
        pieces_view(r@) == template(parts@),
{
    let mut v: Vec<Piece> = Vec::new();
    v.push(Piece::Text(owned(parts[0])));
    proof {
        assert(parts@.take(1).len() == 1);
        assert(pieces_view(v@) =~= template(parts@.take(1)));
    }
    let mut i: usize = 1;
    while i < parts.len()
        invariant
            1 <= i <= parts@.len(),
            pieces_view(v@) == template(parts@.take(i as int)),
        decreases parts@.len() - i,
    {
        let w = parts[i];
        let ghost before = v@;
        v.push(Piece::Version);
        v.push(Piece::Text(owned(w)));
        proof {
            assert(w == parts@[i as int]);
            assert(parts@.take(i + 1).drop_last() =~= parts@.take(i as int));
            assert(parts@.take(i + 1).last() == w);
            assert(pieces_view(v@) =~= pieces_view(before) + seq![
                PieceView::Version,
                PieceView::Text(w@),
            ]);
        }
        i = i + 1;
    }
    proof {
        assert(parts@.take(parts@.len() as int) =~= parts@);
    }
    v
}

/// A command to run.
#[derive(Debug)]
pub enum Command {
    /// A program with its arguments.
    Program { name: String, args: Vec<String> },
    /// `sudo` with these arguments.
    Sudo(Vec<String>),
    /// `sh -c` with this script.
    Shell(Vec<Piece>),
}

pub enum CommandView {
    Program { name: Seq<char>, args: Seq<Seq<char>> },
    Sudo(Seq<Seq<char>>),
    Shell(Seq<PieceView>),
}

impl View for Command {
    type V = CommandView;

    open spec fn view(&self) -> CommandView {
        match self {
            Command::Program { name, args } => CommandView::Program {
                name: name@,
                args: texts_view(args@),
            },
            Command::Sudo(args) => CommandView::Sudo(texts_view(args@)),
            Command::Shell(p) => CommandView::Shell(pieces_view(p@)),
        }
    }
}

/// One step of an installation plan.
#[derive(Debug)]
pub enum Step {
    /// Ask `query`; when the answer is `when`, stop with `outcome`.
    StopIf { query: Query, when: bool, outcome: Res },
    /// Ask `query`; when the answer is yes, skip the next `count` steps.
    SkipIf { query: Query, count: usize },
    /// Run a command; when it fails, stop with an error naming `what`.
    Exec { command: Command, what: String },
    /// Run a shell script and keep its trimmed output as the version; stop
    /// with an error naming `what` when it cannot run, with `empty` when it
    /// prints nothing.
    Capture { script: String, what: String, empty: String },
    /// Append a line to the shell start-up file at `path`.
    AppendLine { path: String, line: String },
    /// Create a directory and its parents.
    MakeDirs { path: String },
    /// Make a symbolic link at `link` to `source`; an error names `label`.
    Link { source: String, link: String, label: String },
    /// Write a file; an error names `label`.
    WriteFile { path: String, contents: String, label: String },
    /// Stop with this outcome.
    Finish(Res),
}

pub enum StepView {
    StopIf { query: QueryView, when: bool, outcome: ResView },
    SkipIf { query: QueryView, count: nat },
    Exec { command: CommandView, what: Seq<char> },
    Capture { script: Seq<char>, what: Seq<char>, empty: Seq<char> },
    AppendLine { path: Seq<char>, line: Seq<char> },
    MakeDirs { path: Seq<char> },
    Link { source: Seq<char>, link: Seq<char>, label: Seq<char> },
    WriteFile { path: Seq<char>, contents: Seq<char>, label: Seq<char> },
    Finish(ResView),
}

impl View for Step {
    type V = StepView;

    open spec fn view(&self) -> StepView {
        match self {
            Step::StopIf { query, when, outcome } => StepView::StopIf {
                query: query@,
                when: *when,
                outcome: res_view(*outcome),
            },
            Step::SkipIf { query, count } => StepView::SkipIf { query: query@, count: *count as nat },
            Step::Exec { command, what } => StepView::Exec { command: command@, what: what@ },
            Step::Capture { script, what, empty } => StepView::Capture {
                script: script@,
                what: what@,
                empty: empty@,
            },
            Step::AppendLine { path, line } => StepView::AppendLine { path: path@, line: line@ },
            Step::MakeDirs { path } => StepView::MakeDirs { path: path@ },
            Step::Link { source, link, label } => StepView::Link {
                source: source@,
                link: link@,
                label: label@,
            },
            Step::WriteFile { path, contents, label } => StepView::WriteFile {
                path: path@,
                contents: contents@,
                label: label@,
            },
            Step::Finish(o) => StepView::Finish(res_view(*o)),
        }
    }
}

pub open spec fn steps_view(v: Seq<Step>) -> Seq<StepView> {
    v.map_values(|s: Step| s@)
}

/// Outside work the machine asks for.
#[derive(Debug)]
pub enum Request {
    /// Answer a yes/no question about the machine.
    Probe(Query),
    /// Run a program and report how it ended.
    Run(Invocation),
    /// Run a program and report what it printed (or why it could not run).
    Capture(Invocation),
    /// Append `line` and a newline to the file at `path`, creating it.
    Append { path: String, line: String },
    /// Create a directory and its parents.
    MakeDirs(String),
    /// Make a symbolic link at `link` pointing to `source`.
    Link { source: String, link: String },
    /// Write `contents` to the file at `path`.
    Write { path: String, contents: String },
}

pub enum RequestView {
    Probe(QueryView),
    Run(InvocationView),
    Capture(InvocationView),
    Append { path: Seq<char>, line: Seq<char> },
    MakeDirs(Seq<char>),
    Link { source: Seq<char>, link: Seq<char> },
    Write { path: Seq<char>, contents: Seq<char> },
}

impl View for Request {
    type V = RequestView;

    open spec fn view(&self) -> RequestView {
        match self {
            Request::Probe(q) => RequestView::Probe(q@),
            Request::Run(i) => RequestView::Run(i@),
            Request::Capture(i) => RequestView::Capture(i@),
            Request::Append { path, line } => RequestView::Append { path: path@, line: line@ },
            Request::MakeDirs(p) => RequestView::MakeDirs(p@),
            Request::Link { source, link } => RequestView::Link { source: source@, link: link@ },
            Request::Write { path, contents } => RequestView::Write {
                path: path@,
                contents: contents@,
            },
        }
    }
}

/// How appending to a file went.
#[derive(Debug, Clone, PartialEq, Eq)]
pub enum AppendOutcome {
    Done,
    /// The file could not be opened; the reason.
    OpenFailed(String),
    /// The line could not be written; the reason.
    WriteFailed(String),
}

/// What came of a [`Request`].
#[derive(Debug)]
pub enum Reply {
    /// The answer to a probe.
    Found(bool),
    /// How a program ended.
    Ran(RunOutcome),
    /// What a program printed, or why it could not run.
    Output(Result<String, String>),
    /// How an append went.
    Appended(AppendOutcome),
    /// How a file-system change went: nothing, or why it failed.
    Io(Result<(), String>),
}

/// Whether a reply is of the kind a request asks for.
pub open spec fn answers(q: RequestView, reply: Reply) -> bool {
    match q {
        RequestView::Probe(_) => reply is Found,
        RequestView::Run(_) => reply is Ran,
        RequestView::Capture(_) => reply is Output,
        RequestView::Append { .. } => reply is Appended,
        RequestView::MakeDirs(_) => reply is Io,
        RequestView::Link { .. } => reply is Io,
        RequestView::Write { .. } => reply is Io,
    }
}

/// The request a step makes, given the version captured so far.
pub open spec fn request_of(step: StepView, version: Seq<char>) -> RequestView {
    match step {
        StepView::StopIf { query, .. } => RequestView::Probe(query),
        StepView::SkipIf { query, .. } => RequestView::Probe(query),
        StepView::Exec { command, .. } => RequestView::Run(invocation_of(command, version)),
        StepView::Capture { script, .. } => RequestView::Capture(
            InvocationView { program: "sh"@, args: seq!["-c"@, script] },
        ),
        StepView::AppendLine { path, line } => RequestView::Append { path, line },
        StepView::MakeDirs { path } => RequestView::MakeDirs(path),
        StepView::Link { source, link, .. } => RequestView::Link { source, link },
        StepView::WriteFile { path, contents, .. } => RequestView::Write { path, contents },
        StepView::Finish(_) => RequestView::MakeDirs(seq![]),
    }
}

/// A script with the captured version put in place.
pub open spec fn render(pieces: Seq<PieceView>, version: Seq<char>) -> Seq<char>
    decreases pieces.len(),
{
    if pieces.len() == 0 {
        seq![]
    } else {
        render(pieces.drop_last(), version) + match pieces.last() {
            PieceView::Text(t) => t,
            PieceView::Version => version,
        }
    }
}

/// The program and arguments a command starts.
pub open spec fn invocation_of(c: CommandView, version: Seq<char>) -> InvocationView {
    match c {
        CommandView::Program { name, args } => InvocationView { program: name, args },
        CommandView::Sudo(args) => InvocationView { program: "sudo"@, args },
        CommandView::Shell(p) => InvocationView {
            program: "sh"@,
            args: seq!["-c"@, render(p, version)],
        },
    }
}

/// Whether a reply is of the kind a step asks for.
pub open spec fn fits(step: StepView, reply: Reply) -> bool {
    match step {
        StepView::StopIf { .. } => reply is Found,
        StepView::SkipIf { .. } => reply is Found,
        StepView::Exec { .. } => reply is Ran,
        StepView::Capture { .. } => reply is Output,
        StepView::AppendLine { .. } => reply is Appended,
        StepView::MakeDirs { .. } => reply is Io,
        StepView::Link { .. } => reply is Io,
        StepView::WriteFile { .. } => reply is Io,
        StepView::Finish(_) => false,
    }
}

/// The state of a run.
pub struct RunView {
    pub plan: Seq<StepView>,
    /// The step to carry out next.
    pub pc: int,
    /// The outcome of the last command that produced one.
    pub last: ResView,
    /// The version captured so far.
    pub version: Seq<char>,
    /// How the run ended, once it has.
    pub outcome: Option<ResView>,
}

/// Ends the run when it has reached the end of its plan (with the last
/// outcome) or a `Finish` step (with that step's outcome).
pub open spec fn settle(r: RunView) -> RunView {
    if r.outcome is Some {
        r
    } else if r.pc >= r.plan.len() {
        RunView { outcome: Some(r.last), ..r }
    } else {
        match r.plan[r.pc] {
            StepView::Finish(o) => RunView { outcome: Some(o), ..r },
            _ => r,
        }
    }
}

/// The state a run starts in.
pub open spec fn started(plan: Seq<StepView>) -> RunView {
    settle(RunView { plan, pc: 0, last: Ok(seq![]), version: seq![], outcome: None })
}

pub open spec fn stop(r: RunView, o: ResView) -> RunView {
    RunView { outcome: Some(o), ..r }
}

pub open spec fn advance(r: RunView, n: int) -> RunView {
    RunView { pc: r.pc + n, ..r }
}

/// The message for a command, named `what`, that ended as `o`.
pub open spec fn exec_result(what: Seq<char>, o: RunOutcome) -> ResView {
    match o {
        RunOutcome::Success => Ok(what + " completed"@),
        RunOutcome::Exited(c) => Err(what + " failed (exit "@ + code_text(c) + ")"@),
        RunOutcome::LaunchFailed(e) => Err(what + " failed: "@ + e@),
    }
}

/// Where a skip of `count` steps after step `pc` lands (at most the end).
pub open spec fn skip_target(pc: int, count: int, len: int) -> int {
    if pc + 1 + count <= len {
        pc + 1 + count
    } else {
        len
    }
}

/// The run after the current step got `reply` (before settling).
pub open spec fn take_reply(r: RunView, reply: Reply) -> RunView {
    match r.plan[r.pc] {
        StepView::StopIf { when, outcome, .. } => match reply {
            Reply::Found(b) => if b == when {
                stop(r, outcome)
            } else {
                advance(r, 1)
            },
            _ => r,
        },
        StepView::SkipIf { count, .. } => match reply {
            Reply::Found(b) => if b {
                RunView { pc: skip_target(r.pc, count as int, r.plan.len() as int), ..r }
            } else {
                advance(r, 1)
            },
            _ => r,
        },
        StepView::Exec { what, .. } => match reply {
            Reply::Ran(o) => match exec_result(what, o) {
                Ok(m) => RunView { last: Ok(m), pc: r.pc + 1, ..r },
                Err(m) => stop(r, Err(m)),
            },
            _ => r,
        },
        StepView::Capture { what, empty, .. } => match reply {
            Reply::Output(Err(e)) => stop(r, Err(what + ": "@ + e@)),
            Reply::Output(Ok(out)) => if trim_ws(out@).len() == 0 {
                stop(r, Err(empty))
            } else {
                RunView { version: trim_ws(out@), pc: r.pc + 1, ..r }
            },
            _ => r,
        },
        StepView::AppendLine { .. } => match reply {
            Reply::Appended(AppendOutcome::Done) => RunView {
                last: Ok("updated ~/.zshrc"@),
                pc: r.pc + 1,
                ..r
            },
            Reply::Appended(AppendOutcome::OpenFailed(e)) => stop(r, Err("open ~/.zshrc: "@ + e@)),
            Reply::Appended(AppendOutcome::WriteFailed(e)) => stop(
                r,
                Err("write ~/.zshrc: "@ + e@),
            ),
            _ => r,
        },
        StepView::MakeDirs { path } => match reply {
            Reply::Io(Ok(_)) => advance(r, 1),
            Reply::Io(Err(e)) => stop(r, Err("mkdir "@ + path + ": "@ + e@)),
            _ => r,
        },
        StepView::Link { label, .. } => match reply {
            Reply::Io(Ok(_)) => advance(r, 1),
            Reply::Io(Err(e)) => stop(r, Err("symlink "@ + label + ": "@ + e@)),
            _ => r,
        },
        StepView::WriteFile { label, .. } => match reply {
            Reply::Io(Ok(_)) => advance(r, 1),
            Reply::Io(Err(e)) => stop(r, Err("write "@ + label + ": "@ + e@)),
            _ => r,
        },
        StepView::Finish(_) => r,
    }
}

/// The run after the current step got `reply`.
pub open spec fn answered(r: RunView, reply: Reply) -> RunView {
    settle(take_reply(r, reply))
}

/// Whether a run is in a state the machine can be in: a finished run has its
/// outcome; an unfinished one stands on a step that asks for outside work.
pub open spec fn run_wf(r: RunView) -> bool {
    &&& 0 <= r.pc
    &&& r.outcome is None ==> r.pc < r.plan.len() && !(r.plan[r.pc] is Finish)
}

/// Carries out an installation plan, one outside request at a time.
pub struct Installer {
    plan: Vec<Step>,
    pc: usize,
    last: Res,
    version: String,
    outcome: Option<Res>,
}

pub open spec fn opt_res_view(o: Option<Res>) -> Option<ResView> {
    match o {
        Some(r) => Some(res_view(r)),
        None => None,
    }
}

impl View for Installer {
    type V = RunView;

    closed spec fn view(&self) -> RunView {
        RunView {
            plan: steps_view(self.plan@),
            pc: self.pc as int,
            last: res_view(self.last),
            version: self.version@,
            outcome: opt_res_view(self.outcome),
        }
    }
}

fn render_pieces(pieces: &Vec<Piece>, version: &str) -> (r: String)
    ensures
        r@ == render(pieces_view(pieces@), version@),
{
    let mut out = String::new();
    let n = pieces.len();
    let mut i: usize = 0;
    while i < n
        invariant
            n == pieces@.len(),
            i <= n,
            out@ == render(pieces_view(pieces@).take(i as int), version@),
        decreases n - i,
    {
        proof {
            let pv = pieces_view(pieces@);
            assert(pv.take(i + 1).drop_last() =~= pv.take(i as int));
            assert(pv.take(i + 1).last() == pieces@[i as int]@);
        }
        match &pieces[i] {
            Piece::Text(t) => out.append(t.as_str()),
            Piece::Version => out.append(version),
        }
        i = i + 1;
    }
    proof {
        assert(pieces_view(pieces@).take(n as int) =~= pieces_view(pieces@));
    }
    out
}

fn clone_texts(v: &Vec<String>) -> (r: Vec<String>)
    ensures
        texts_view(r@) == texts_view(v@),
{
    let mut r: Vec<String> = Vec::new();
    let n = v.len();
    let mut i: usize = 0;
    while i < n
        invariant
            n == v@.len(),
            i <= n,
            texts_view(r@) == texts_view(v@).take(i as int),
        decreases n - i,
    {
        let ghost before = r@;
        let c = v[i].clone();
        proof {
            assert(c@ == v@[i as int]@);
        }
        r.push(c);
        proof {
            assert(texts_view(r@) =~= texts_view(before).push(c@));
            assert(texts_view(v@).take(i + 1) =~= texts_view(v@).take(i as int).push(v@[i as int]@));
        }
        i = i + 1;
    }
    proof {
        assert(texts_view(v@).take(n as int) =~= texts_view(v@));
    }
    r
}

fn clone_query(q: &Query) -> (r: Query)
    ensures
        r@ == q@,
{
    match q {
        Query::CommandExists(c) => Query::CommandExists(c.clone()),
        Query::PathExists(p) => Query::PathExists(p.clone()),
    }
}

fn clone_res(r: &Res) -> (c: Res)
    ensures
        res_view(c) == res_view(*r),
{
    match r {
        Ok(m) => Ok(m.clone()),
        Err(m) => Err(m.clone()),
    }
}

fn shell(script: String) -> (r: Invocation)
    ensures
        r@ == (InvocationView { program: "sh"@, args: seq!["-c"@, script@] }),
{
    let args = vec![owned("-c"), script];
    proof {
        assert(texts_view(args@) =~= seq!["-c"@, script@]);
    }
    Invocation { program: owned("sh"), args }
}

fn invocation(c: &Command, version: &str) -> (r: Invocation)
    ensures
        r@ == invocation_of(c@, version@),
{
    match c {
        Command::Program { name, args } => Invocation {
            program: name.clone(),
            args: clone_texts(args),
        },
        Command::Sudo(args) => Invocation { program: owned("sudo"), args: clone_texts(args) },
        Command::Shell(p) => shell(render_pieces(p, version)),
    }
}

impl Installer {
    pub closed spec fn wf(&self) -> bool {
        &&& run_wf(self@)
        &&& self.pc <= self.plan@.len()
    }

    fn settle_now(&mut self)
        requires
            old(self).pc <= old(self).plan@.len(),
        ensures
            final(self)@ == settle(old(self)@),
            final(self).pc == old(self).pc,
            final(self).plan@ == old(self).plan@,
    {
        if self.outcome.is_some() {
            return;
        }
        if self.pc >= self.plan.len() {
            self.outcome = Some(clone_res(&self.last));
            return;
        }
        let o = match &self.plan[self.pc] {
            Step::Finish(o) => Some(clone_res(o)),
            _ => None,
        };
        if o.is_some() {
            self.outcome = o;
        }
    }

    /// A machine about to carry out `plan`.
    pub fn start(plan: Vec<Step>) -> (r: Installer)
        ensures
            r@ == started(steps_view(plan@)),
            r.wf(),
    {
        let mut m = Installer {
            plan,
            pc: 0,
            last: Ok(String::new()),
            version: String::new(),
            outcome: None,
        };
        m.settle_now();
        m
    }

    /// The outside work the current step needs; `None` once the run is over.
    pub fn request(&self) -> (r: Option<Request>)
        requires
            self.wf(),
        ensures
            self@.outcome is Some <==> r is None,
            r matches Some(q) ==> q@ == request_of(self@.plan[self@.pc], self@.version),
            r is Some ==> 0 <= self@.pc < self@.plan.len() && !(self@.plan[self@.pc] is Finish),
            r matches Some(q) ==> forall|reply: Reply| #[trigger]
                answers(q@, reply) <==> self.takes(reply),
    {
        if self.outcome.is_some() {
            return None;
        }
        let v = self.version.as_str();
        let q = match &self.plan[self.pc] {
            Step::StopIf { query, .. } => Request::Probe(clone_query(query)),
            Step::SkipIf { query, .. } => Request::Probe(clone_query(query)),
            Step::Exec { command, .. } => Request::Run(invocation(command, v)),
            Step::Capture { script, .. } => Request::Capture(shell(script.clone())),
            Step::AppendLine { path, line } => Request::Append {
                path: path.clone(),
                line: line.clone(),
            },
            Step::MakeDirs { path } => Request::MakeDirs(path.clone()),
            Step::Link { source, link, .. } => Request::Link {
                source: source.clone(),
                link: link.clone(),
            },
            Step::WriteFile { path, contents, .. } => Request::Write {
                path: path.clone(),
                contents: contents.clone(),
            },
            Step::Finish(_) => Request::MakeDirs(String::new()),
        };
        Some(q)
    }

    /// Whether the current step takes `reply`.
    pub open spec fn takes(&self, reply: Reply) -> bool {
        &&& self@.outcome is None
        &&& fits(self@.plan[self@.pc], reply)
    }

    /// How the run ended, once it has.
    pub fn outcome(&self) -> (r: Option<Res>)
        ensures
            opt_res_view(r) == self@.outcome,
    {
        match &self.outcome {
            Some(o) => Some(clone_res(o)),
            None => None,
        }
    }

    /// Hands in what came of the current step's request.
    pub fn answer(&mut self, reply: Reply)
        requires
            old(self).wf(),
            old(self).takes(reply),
        ensures
            final(self).wf(),
            final(self)@ == answered(old(self)@, reply),
    {
        proof {
            assert(self@.plan.len() == self.plan@.len());
            assert(self@.outcome is None);
            assert(self.pc < self.plan@.len());
        }
        let pc = self.pc;
        let len = self.plan.len();
        let mut next: usize = if pc < len {
            pc + 1
        } else {
            len
        };
        let mut stop_with: Option<Res> = None;
        let mut new_last: Option<Res> = None;
        let mut new_version: Option<String> = None;
        match (&self.plan[pc], reply) {
            (Step::StopIf { when, outcome, .. }, Reply::Found(b)) => {
                if b == *when {
                    stop_with = Some(clone_res(outcome));
                }
            },
            (Step::SkipIf { count, .. }, Reply::Found(b)) => {
                if b {
                    let room = self.plan.len() - pc;
                    next = if *count < room {
                        pc + 1 + *count
                    } else {
                        self.plan.len()
                    };
                }
            },
            (Step::Exec { what, .. }, Reply::Ran(o)) => {
                match o {
                    RunOutcome::Success => {
                        new_last = Some(Ok(cat(what.as_str(), " completed")));
                    },
                    RunOutcome::Exited(c) => {
                        let t = code_to_text(c);
                        let mut m = cat(what.as_str(), " failed (exit ");
                        m.append(t.as_str());
                        m.append(")");
                        stop_with = Some(Err(m));
                    },
                    RunOutcome::LaunchFailed(e) => {
                        let mut m = cat(what.as_str(), " failed: ");
                        m.append(e.as_str());
                        stop_with = Some(Err(m));
                    },
                }
            },
            (Step::Capture { what, empty, .. }, Reply::Output(out)) => {
                match out {
                    Err(e) => {
                        stop_with = Some(Err(cat3(what.as_str(), ": ", e.as_str())));
                    },
                    Ok(text) => {
                        let v = trim(text.as_str());
                        if v.unicode_len() == 0 {
                            stop_with = Some(Err(empty.clone()));
                        } else {
                            new_version = Some(v);
                        }
                    },
                }
            },
            (Step::AppendLine { .. }, Reply::Appended(a)) => {
                match a {
                    AppendOutcome::Done => {
                        new_last = Some(Ok(owned("updated ~/.zshrc")));
                    },
                    AppendOutcome::OpenFailed(e) => {
                        stop_with = Some(Err(cat("open ~/.zshrc: ", e.as_str())));
                    },
                    AppendOutcome::WriteFailed(e) => {
                        stop_with = Some(Err(cat("write ~/.zshrc: ", e.as_str())));
                    },
                }
            },
            (Step::MakeDirs { path }, Reply::Io(res)) => {
                if let Err(e) = res {
                    let mut m = cat3("mkdir ", path.as_str(), ": ");
                    m.append(e.as_str());
                    stop_with = Some(Err(m));
                }
            },
            (Step::Link { label, .. }, Reply::Io(res)) => {
                if let Err(e) = res {
                    let mut m = cat3("symlink ", label.as_str(), ": ");
                    m.append(e.as_str());
                    stop_with = Some(Err(m));
                }
            },
            (Step::WriteFile { label, .. }, Reply::Io(res)) => {
                if let Err(e) = res {
                    let mut m = cat3("write ", label.as_str(), ": ");
                    m.append(e.as_str());
                    stop_with = Some(Err(m));
                }
            },
            _ => {},
        }
        match stop_with {
            Some(o) => {
                self.outcome = Some(o);
            },
            None => {
                self.pc = next;
                if let Some(l) = new_last {
                    self.last = l;
                }
                if let Some(v) = new_version {
                    self.version = v;
                }
                self.settle_now();
            },
        }
    }
}

} // verus!
