//! What to run for a corrected command line, and how each outcome of a
//! process ends the run.
use vstd::prelude::*;
use crate::text::{split_words, trim_end, trim_end_spec, views, words};

verus! {

/// A failure that ends the run with status 1 and an error report.
#[derive(Clone, Copy, Debug, PartialEq, Eq, Structural)]
pub enum Failure {
    /// The current branch could not be determined.
    BranchLookup,
    /// A process could not be started.
    Launch,
}

/// How a process that was asked for turned out.
#[derive(Clone, Copy, Debug, PartialEq, Eq, Structural)]
pub enum ProcessOutcome {
    /// The process could not be started.
    NotStarted,
    /// The process ran and ended, with its exit code if it had one.
    Exited { code: Option<i32> },
}

/// The next thing to do.
#[derive(Debug)]
pub enum Step {
    /// End the run with `code`, reporting `error` if there is one.
    Exit { code: i32, error: Option<Failure> },
    /// Ask for the current branch, then push it with `extra` appended.
    QueryBranch { extra: Vec<String> },
    /// Run the push subcommand with `args`, which name `branch`.
    Push { branch: String, args: Vec<String> },
    /// Run `program` with `args` and end with its exit code.
    Run { program: String, args: Vec<String> },
}

/// A process to start: the program and its arguments.
#[derive(Clone, Debug)]
pub struct Invocation {
    pub program: String,
    pub args: Vec<String>,
}

/// A `Step` with its strings as character sequences.
pub enum StepView {
    Exit { code: i32, error: Option<Failure> },
    QueryBranch { extra: Seq<Seq<char>> },
    Push { branch: Seq<char>, args: Seq<Seq<char>> },
    Run { program: Seq<char>, args: Seq<Seq<char>> },
}

impl View for Step {
    type V = StepView;

    open spec fn view(&self) -> StepView {
        match self {
            Step::Exit { code, error } => StepView::Exit { code: *code, error: *error },
            Step::QueryBranch { extra } => StepView::QueryBranch { extra: views(extra@) },
            Step::Push { branch, args } => StepView::Push { branch: branch@, args: views(args@) },
            Step::Run { program, args } => StepView::Run { program: program@, args: views(args@) },
        }
    }
}

/// The step for the words of a corrected command line: `git push ...`
/// pushes the current branch, nothing ends the run at once, anything else
/// runs as it stands.
pub open spec fn dispatch_spec(w: Seq<Seq<char>>) -> StepView {
    if w.len() >= 2 && w[0] == "git"@ && w[1] == "push"@ {
        StepView::QueryBranch { extra: w.skip(2) }
    } else if w.len() == 0 {
        StepView::Exit { code: 0, error: None }
    } else {
        StepView::Run { program: w[0], args: w.skip(1) }
    }
}

/// The arguments of the push subcommand that sets `branch` on `origin` as
/// upstream, followed by `extra`.
pub open spec fn push_args_spec(branch: Seq<char>, extra: Seq<Seq<char>>) -> Seq<Seq<char>> {
    seq!["-u"@, "origin"@, branch] + extra
}

/// The step after the branch query ended as `status` with `output`, the
/// query's standard output when it could be read as text.
pub open spec fn after_branch_query_spec(
    status: ProcessOutcome,
    output: Option<Seq<char>>,
    extra: Seq<Seq<char>>,
) -> StepView {
    if status == (ProcessOutcome::Exited { code: Some(0) }) && output is Some {
        let branch = trim_end_spec(output->0);
        StepView::Push { branch, args: push_args_spec(branch, extra) }
    } else {
        StepView::Exit { code: 1, error: Some(Failure::BranchLookup) }
    }
}

/// The exit code of the run after the push ended as `outcome`.
pub open spec fn after_push_spec(outcome: ProcessOutcome) -> StepView {
    match outcome {
        ProcessOutcome::NotStarted => StepView::Exit { code: 1, error: Some(Failure::Launch) },
        ProcessOutcome::Exited { code: Some(c) } => StepView::Exit { code: c, error: None },
        ProcessOutcome::Exited { code: None } => StepView::Exit { code: 1, error: None },
    }
}

/// The exit code of the run after a command run as it stands ended as
/// `outcome`.
pub open spec fn after_run_spec(outcome: ProcessOutcome) -> StepView {
    match outcome {
        ProcessOutcome::NotStarted => StepView::Exit { code: 1, error: Some(Failure::Launch) },
        ProcessOutcome::Exited { code: Some(c) } => StepView::Exit { code: c, error: None },
        ProcessOutcome::Exited { code: None } => StepView::Exit { code: 1, error: None },
    }
}

/// A command line that is empty, or blank, ends the run at once with status
/// 0 and starts no process.
pub proof fn lemma_blank_line_exits_zero(s: Seq<char>)
    requires
        forall|i: int| 0 <= i < s.len() ==> crate::text::is_ws(#[trigger] s[i]),
    ensures
        dispatch_spec(words(s)) == (StepView::Exit { code: 0, error: None }),
{
    crate::text::lemma_blank_has_no_words(s);
}

/// When the branch query does not end with status 0, or its output is not
/// text, the run ends with status 1 and the push is never asked for.
pub proof fn lemma_failed_query_aborts(
    status: ProcessOutcome,
    output: Option<Seq<char>>,
    extra: Seq<Seq<char>>,
)
    requires
        status != (ProcessOutcome::Exited { code: Some(0) }) || output is None,
    ensures
        after_branch_query_spec(status, output, extra) == (StepView::Exit {
            code: 1,
            error: Some(Failure::BranchLookup),
        }),
{
}

/// The exit code of a process that ran, the push or any other command,
/// becomes the exit code of the run.
pub proof fn lemma_exit_code_forwarded(c: i32)
    ensures
        after_push_spec(ProcessOutcome::Exited { code: Some(c) }) == (StepView::Exit {
            code: c,
            error: None,
        }),
        after_run_spec(ProcessOutcome::Exited { code: Some(c) }) == (StepView::Exit {
            code: c,
            error: None,
        }),
{
}

/// A process that ended without an exit code, killed by a signal, ends the
/// run with status 1, after a push as after any other command.
pub proof fn lemma_no_code_fails()
    ensures
        after_push_spec(ProcessOutcome::Exited { code: None }) == (StepView::Exit {
            code: 1,
            error: None,
        }),
        after_run_spec(ProcessOutcome::Exited { code: None }) == (StepView::Exit {
            code: 1,
            error: None,
        }),
{
}

/// The process that tells the current branch:
/// `git rev-parse --abbrev-ref HEAD`.
pub fn branch_query() -> (r: Invocation)
    ensures
        r.program@ == "git"@,
        views(r.args@) == seq!["rev-parse"@, "--abbrev-ref"@, "HEAD"@],
{
    let mut args: Vec<String> = Vec::new();
    args.push(String::from_str("rev-parse"));
    args.push(String::from_str("--abbrev-ref"));
    args.push(String::from_str("HEAD"));
    assert(views(args@) =~= seq!["rev-parse"@, "--abbrev-ref"@, "HEAD"@]);
    Invocation { program: String::from_str("git"), args }
}

/// The process that pushes with the push arguments `args`: `git push`
/// followed by `args` in order.
pub fn push_invocation(args: &Vec<String>) -> (r: Invocation)
    ensures
        r.program@ == "git"@,
        views(r.args@) == seq!["push"@] + views(args@),
{
    let mut out: Vec<String> = Vec::new();
    out.push(String::from_str("push"));
    let mut i: usize = 0;
    while i < args.len()
        invariant
            i <= args@.len(),
            views(out@) == seq!["push"@] + views(args@).take(i as int),
        decreases args@.len() - i,
    {
        let x = args[i].clone();
        assert(x@ == views(args@)[i as int]);
        let ghost prev = out@;
        out.push(x);
        assert(views(out@) =~= views(prev).push(x@));
        assert(views(out@) =~= seq!["push"@] + views(args@).take(i + 1));
        i = i + 1;
    }
    assert(views(args@).take(args@.len() as int) =~= views(args@));
    Invocation { program: String::from_str("git"), args: out }
}

/// Chooses the step for the corrected command line `text`.
pub fn dispatch(text: &str) -> (r: Step)
    ensures
        r@ == dispatch_spec(words(text@)),
{
    let w = split_words(text);
    proof {
        reveal_strlit("git");
        reveal_strlit("push");
    }
    if w.len() >= 2 && w[0] == String::from_str("git") && w[1] == String::from_str("push") {
        let extra = tail(&w, 2);
        Step::QueryBranch { extra }
    } else if w.len() == 0 {
        Step::Exit { code: 0, error: None }
    } else {
        let program = w[0].clone();
        let args = tail(&w, 1);
        Step::Run { program, args }
    }
}

/// The strings of `v` from index `from` on.
fn tail(v: &Vec<String>, from: usize) -> (r: Vec<String>)
    requires
        from <= v@.len(),
    ensures
        views(r@) == views(v@).skip(from as int),
{
    let mut r: Vec<String> = Vec::new();
    let mut i: usize = from;
    while i < v.len()
        invariant
            from <= i <= v@.len(),
            views(r@) == views(v@).subrange(from as int, i as int),
        decreases v@.len() - i,
    {
        let x = v[i].clone();
        assert(x@ == views(v@)[i as int]);
        let ghost prev = r@;
        r.push(x);
        assert(views(r@) =~= views(prev).push(x@));
        assert(views(r@) =~= views(v@).subrange(from as int, i + 1));
        i = i + 1;
    }
    assert(views(v@).subrange(from as int, v@.len() as int) =~= views(v@).skip(from as int));
    r
}

/// The arguments of the push subcommand for `branch`: upstream set on
/// `origin`, then `extra` in order.
pub fn push_args(branch: &str, extra: &Vec<String>) -> (r: Vec<String>)
    ensures
        views(r@) == push_args_spec(branch@, views(extra@)),
{
    let mut r: Vec<String> = Vec::new();
    r.push(String::from_str("-u"));
    r.push(String::from_str("origin"));
    r.push(String::from_str(branch));
    let mut i: usize = 0;
    while i < extra.len()
        invariant
            i <= extra@.len(),
            views(r@) == push_args_spec(branch@, views(extra@).take(i as int)),
        decreases extra@.len() - i,
    {
        let x = extra[i].clone();
        assert(x@ == views(extra@)[i as int]);
        let ghost prev = r@;
        r.push(x);
        assert(views(r@) =~= views(prev).push(x@));
        assert(views(r@) =~= push_args_spec(branch@, views(extra@).take(i + 1)));
        i = i + 1;
    }
    assert(views(extra@).take(extra@.len() as int) =~= views(extra@));
    r
}

/// Chooses the step after the branch query ended as `status`; `output` is
/// its standard output if that could be read as text.
pub fn after_branch_query(status: ProcessOutcome, output: Option<String>, extra: &Vec<String>) -> (r:
    Step)
    ensures
        r@ == after_branch_query_spec(
            status,
            match output {
                Some(s) => Some(s@),
                None => None,
            },
            views(extra@),
        ),
{
    match (status, output) {
        (ProcessOutcome::Exited { code: Some(0) }, Some(out)) => {
            let branch = trim_end(out.as_str());
            let args = push_args(branch.as_str(), extra);
            Step::Push { branch, args }
        },
        _ => Step::Exit { code: 1, error: Some(Failure::BranchLookup) },
    }
}

/// Chooses how the run ends after the push ended as `outcome`.
pub fn after_push(outcome: ProcessOutcome) -> (r: Step)
    ensures
        r@ == after_push_spec(outcome),
{
    match outcome {
        ProcessOutcome::NotStarted => Step::Exit { code: 1, error: Some(Failure::Launch) },
        ProcessOutcome::Exited { code: Some(c) } => Step::Exit { code: c, error: None },
        ProcessOutcome::Exited { code: None } => Step::Exit { code: 1, error: None },
    }
}

/// Chooses how the run ends after a command run as it stands ended as
/// `outcome`.
pub fn after_run(outcome: ProcessOutcome) -> (r: Step)
    ensures
        r@ == after_run_spec(outcome),
{
    match outcome {
        ProcessOutcome::NotStarted => Step::Exit { code: 1, error: Some(Failure::Launch) },
        ProcessOutcome::Exited { code: Some(c) } => Step::Exit { code: c, error: None },
        ProcessOutcome::Exited { code: None } => Step::Exit { code: 1, error: None },
    }
}

} // verus!
