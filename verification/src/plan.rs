//! Plans: what a command asks the surrounding program to do.

use vstd::prelude::*;
use crate::config::text_of;
use crate::error::ToolError;

verus! {

/// What becomes of a child process's standard output.
#[derive(Clone, Copy, Debug, PartialEq, Eq, Structural)]
pub enum Relay {
    /// The child is waited for and its output dropped.
    Discard,
    /// The child is waited for, then its whole captured output is written out.
    Whole,
    /// The output is read line by line while the child runs, and each line is
    /// written out as it arrives, until the stream closes.
    Lines,
}

/// One action for the surrounding program to perform.
#[derive(Clone, Debug, PartialEq, Eq)]
pub enum Step {
    /// Download `url` and store the body in `file`. A response with a
    /// non-success status is reported and the plan goes on.
    Fetch { label: String, url: String, file: String },
    /// Spawn `program` with `args`, inside `dir` where one is given.
    Execute { program: String, args: Vec<String>, dir: Option<String>, relay: Relay },
    /// Overwrite the file at `path` with `text`.
    Write { path: String, text: String },
}

/// A [`Step`] as plain text.
pub enum StepView {
    Fetch { label: Seq<char>, url: Seq<char>, file: Seq<char> },
    Execute { program: Seq<char>, args: Seq<Seq<char>>, dir: Option<Seq<char>>, relay: Relay },
    Write { path: Seq<char>, text: Seq<char> },
}

/// The texts of a list of strings.
pub open spec fn texts(items: Seq<String>) -> Seq<Seq<char>> {
    items.map_values(|s: String| s@)
}

impl View for Step {
    type V = StepView;

    open spec fn view(&self) -> StepView {
        match *self {
            Step::Fetch { label, url, file } => StepView::Fetch {
                label: label@,
                url: url@,
                file: file@,
            },
            Step::Execute { program, args, dir, relay } => StepView::Execute {
                program: program@,
                args: texts(args@),
                dir: text_of(dir),
                relay,
            },
            Step::Write { path, text } => StepView::Write { path: path@, text: text@ },
        }
    }
}

/// The steps to perform in order, and the error to fail with once they are
/// done, if the command cannot complete.
#[derive(Clone, Debug, PartialEq, Eq)]
pub struct Plan {
    pub steps: Vec<Step>,
    pub failure: Option<ToolError>,
}

/// A [`Plan`] as plain values.
pub struct PlanView {
    pub steps: Seq<StepView>,
    pub failure: Option<ToolError>,
}

/// The views of a list of steps.
pub open spec fn step_views(steps: Seq<Step>) -> Seq<StepView> {
    steps.map_values(|s: Step| s@)
}

impl View for Plan {
    type V = PlanView;

    open spec fn view(&self) -> PlanView {
        PlanView { steps: step_views(self.steps@), failure: self.failure }
    }
}

/// The plan that fails with `error` after `steps`.
pub open spec fn failing(steps: Seq<StepView>, error: ToolError) -> PlanView {
    PlanView { steps, failure: Some(error) }
}

/// The plan that performs `steps` and succeeds.
pub open spec fn performing(steps: Seq<StepView>) -> PlanView {
    PlanView { steps, failure: None }
}

/// The error that a step raises when it cannot be carried out: a download
/// whose request fails, a subprocess that cannot be spawned, a file that
/// cannot be written.
pub open spec fn step_failure(step: StepView) -> ToolError {
    match step {
        StepView::Fetch { .. } => ToolError::Network,
        StepView::Execute { .. } => ToolError::Exec,
        StepView::Write { .. } => ToolError::Io,
    }
}

impl Step {
    /// The error to abort with when this step cannot be carried out.
    pub fn failure(&self) -> (error: ToolError)
        ensures
            error == step_failure(self@),
    {
        match self {
            Step::Fetch { .. } => ToolError::Network,
            Step::Execute { .. } => ToolError::Exec,
            Step::Write { .. } => ToolError::Io,
        }
    }
}

/// What the surrounding program does next.
#[derive(Clone, Copy, Debug, PartialEq, Eq, Structural)]
pub enum Next {
    /// Perform the step at this index.
    Perform(usize),
    /// Every step is done and the command fails with this error.
    Fail(ToolError),
    /// Every step is done and the command has succeeded.
    Finish,
}

/// What follows once the first `done` steps of a plan have been performed:
/// the steps are taken in order, and the plan's failure comes after the last.
pub open spec fn next_of(plan: PlanView, done: nat) -> Next {
    if done < plan.steps.len() {
        Next::Perform(done as usize)
    } else {
        match plan.failure {
            Some(error) => Next::Fail(error),
            None => Next::Finish,
        }
    }
}

impl Plan {
    /// Says what follows once the first `done` steps have been performed.
    pub fn next(&self, done: usize) -> (next: Next)
        ensures
            next == next_of(self@, done as nat),
    {
        if done < self.steps.len() {
            Next::Perform(done)
        } else {
            match self.failure {
                Some(error) => Next::Fail(error),
                None => Next::Finish,
            }
        }
    }

    /// The plan with no steps that fails with `error`.
    pub fn refuse(error: ToolError) -> (plan: Plan)
        ensures
            plan@ == failing(Seq::empty(), error),
    {
        let plan = Plan { steps: Vec::new(), failure: Some(error) };
        assert(plan@.steps =~= Seq::empty());
        plan
    }

    /// The plan that performs the single step `step` and succeeds.
    pub fn single(step: Step) -> (plan: Plan)
        ensures
            plan@ == performing(seq![step@]),
    {
        let mut steps: Vec<Step> = Vec::new();
        steps.push(step);
        let plan = Plan { steps, failure: None };
        assert(plan@.steps =~= seq![step@]);
        plan
    }
}

/// The two-element argument list `[first, second]`.
pub fn two_args(first: String, second: String) -> (args: Vec<String>)
    ensures
        texts(args@) == seq![first@, second@],
{
    let mut args: Vec<String> = Vec::new();
    args.push(first);
    args.push(second);
    assert(texts(args@) =~= seq![first@, second@]);
    args
}

/// A step that runs `program` on two arguments in the current directory.
pub fn invoke(program: String, first: String, second: String, relay: Relay) -> (step: Step)
    ensures
        step@ == invocation(program@, first@, second@, relay),
{
    Step::Execute { program, args: two_args(first, second), dir: None, relay }
}

/// Running `program` on two arguments in the current directory.
pub open spec fn invocation(
    program: Seq<char>,
    first: Seq<char>,
    second: Seq<char>,
    relay: Relay,
) -> StepView {
    StepView::Execute { program, args: seq![first, second], dir: None, relay }
}

/// `first`, then what `rest` plans.
pub open spec fn after(first: Seq<StepView>, rest: PlanView) -> PlanView {
    PlanView { steps: first + rest.steps, failure: rest.failure }
}

/// Puts `first` in front of the steps of `rest`.
pub fn prepend_steps(first: Vec<Step>, rest: Plan) -> (plan: Plan)
    ensures
        plan@ == after(step_views(first@), rest@),
{
    let ghost planned = rest@;
    let ghost leading = step_views(first@);
    let Plan { steps: mut following, failure } = rest;
    let mut steps = first;
    proof {
        assert(step_views(steps@ + following@) =~= leading + planned.steps);
    }
    steps.append(&mut following);
    Plan { steps, failure }
}

} // verus!
