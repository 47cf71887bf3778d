//! Planning a flash: placing the device configuration and the payload in the
//! flashing project, then running the project and relaying its output.

use vstd::prelude::*;
use crate::config::{text_of, ToolConfig, ToolConfigView};
use crate::error::{Invalid, Missing, ToolError};
use crate::plan::{
    failing, invocation, invoke, performing, two_args, Plan, PlanView, Relay, Step,
    StepView,
};

verus! {

/// A request to flash a payload, given as bytecode or as source to compile.
#[derive(Clone, Debug, PartialEq, Eq)]
pub struct FlashRequest {
    pub source_path: Option<String>,
    pub bytecode_path: Option<String>,
    pub config_path: String,
}

/// A [`FlashRequest`] as plain text.
pub struct FlashRequestView {
    pub source_path: Option<Seq<char>>,
    pub bytecode_path: Option<Seq<char>>,
    pub config_path: Seq<char>,
}

impl View for FlashRequest {
    type V = FlashRequestView;

    open spec fn view(&self) -> FlashRequestView {
        FlashRequestView {
            source_path: text_of(self.source_path),
            bytecode_path: text_of(self.bytecode_path),
            config_path: self.config_path@,
        }
    }
}

/// Where the payload lies inside the flashing project.
pub open spec fn payload_path(sanusb: Seq<char>) -> Seq<char> {
    sanusb + "/payload.sanb"@
}

/// Copying `from` to `to` with `cp`.
pub open spec fn copy_step(from: Seq<char>, to: Seq<char>) -> StepView {
    invocation("cp"@, from, to, Relay::Discard)
}

/// Running the flashing project in its own directory, its output relayed
/// line by line.
pub open spec fn runner_step(sanusb: Seq<char>) -> StepView {
    StepView::Execute {
        program: "sh"@,
        args: seq!["-c"@, "cargo run"@],
        dir: Some(sanusb),
        relay: Relay::Lines,
    }
}

/// The plan for a flash request.
///
/// Without a flashing-project path nothing is done. Otherwise the device
/// configuration is copied into the project first. The payload is the
/// bytecode where a bytecode path is given, whatever else the request holds;
/// else the source is compiled straight to the payload's place, which needs a
/// compiler; with neither the request is invalid. After the payload is in
/// place the project is run.
pub open spec fn flash_plan(request: FlashRequestView, config: ToolConfigView) -> PlanView {
    match config.sanusb_path {
        None => failing(Seq::empty(), ToolError::Config(Missing::Sanusb)),
        Some(sanusb) => {
            let place_config = copy_step(request.config_path, sanusb);
            match request.bytecode_path {
                Some(bytecode) => performing(
                    seq![
                        place_config,
                        copy_step(bytecode, payload_path(sanusb)),
                        runner_step(sanusb),
                    ],
                ),
                None => match request.source_path {
                    None => failing(seq![place_config], ToolError::Validation(Invalid::NoPayload)),
                    Some(source) => match config.compiler_path {
                        None => failing(seq![place_config], ToolError::Config(Missing::Compiler)),
                        Some(compiler) => performing(
                            seq![
                                place_config,
                                invocation(compiler, source, payload_path(sanusb), Relay::Whole),
                                runner_step(sanusb),
                            ],
                        ),
                    },
                },
            }
        },
    }
}

fn copy(from: String, to: String) -> (step: Step)
    ensures
        step@ == copy_step(from@, to@),
{
    invoke(String::from_str("cp"), from, to, Relay::Discard)
}

fn runner(sanusb: String) -> (step: Step)
    ensures
        step@ == runner_step(sanusb@),
{
    Step::Execute {
        program: String::from_str("sh"),
        args: two_args(String::from_str("-c"), String::from_str("cargo run")),
        dir: Some(sanusb),
        relay: Relay::Lines,
    }
}

fn payload_in(sanusb: &String) -> (path: String)
    ensures
        path@ == payload_path(sanusb@),
{
    sanusb.clone().concat("/payload.sanb")
}

fn deploy(place_config: Step, place_payload: Step, sanusb: &String) -> (plan: Plan)
    ensures
        plan@ == performing(seq![place_config@, place_payload@, runner_step(sanusb@)]),
{
    let mut steps: Vec<Step> = Vec::new();
    steps.push(place_config);
    steps.push(place_payload);
    steps.push(runner(sanusb.clone()));
    let plan = Plan { steps, failure: None };
    assert(plan@.steps =~= seq![place_config@, place_payload@, runner_step(sanusb@)]);
    plan
}

fn give_up(place_config: Step, error: ToolError) -> (plan: Plan)
    ensures
        plan@ == failing(seq![place_config@], error),
{
    let mut steps: Vec<Step> = Vec::new();
    steps.push(place_config);
    let plan = Plan { steps, failure: Some(error) };
    assert(plan@.steps =~= seq![place_config@]);
    plan
}

/// Plans a flash request.
pub fn plan_flash(request: &FlashRequest, config: &ToolConfig) -> (plan: Plan)
    ensures
        plan@ == flash_plan(request@, config@),
{
    match &config.sanusb_path {
        None => Plan::refuse(ToolError::Config(Missing::Sanusb)),
        Some(sanusb) => {
            let place_config = copy(request.config_path.clone(), sanusb.clone());
            match &request.bytecode_path {
                Some(bytecode) => {
                    let place_payload = copy(bytecode.clone(), payload_in(sanusb));
                    deploy(place_config, place_payload, sanusb)
                },
                None => match &request.source_path {
                    None => give_up(place_config, ToolError::Validation(Invalid::NoPayload)),
                    Some(source) => match &config.compiler_path {
                        None => give_up(place_config, ToolError::Config(Missing::Compiler)),
                        Some(compiler) => {
                            let build = invoke(
                                compiler.clone(),
                                source.clone(),
                                payload_in(sanusb),
                                Relay::Whole,
                            );
                            deploy(place_config, build, sanusb)
                        },
                    },
                },
            }
        },
    }
}

/// What the reader of the runner's output stream reports.
#[derive(Clone, Debug, PartialEq, Eq)]
pub enum StreamEvent {
    /// A line was read.
    Line(String),
    /// A line could not be read.
    Unreadable,
    /// The stream is closed.
    Closed,
}

/// What to do about a [`StreamEvent`].
#[derive(Clone, Debug, PartialEq, Eq)]
pub enum RelayAction {
    /// Write the line out and read on.
    Echo(String),
    /// Stop with an error.
    Abort(ToolError),
    /// The relay is over.
    Finish,
}

/// Decides what the relay does next: a line is written out as it was read,
/// the first unreadable line aborts the command, and the relay ends when the
/// stream closes.
pub fn relay(event: StreamEvent) -> (action: RelayAction)
    ensures
        match event {
            StreamEvent::Line(line) => action == RelayAction::Echo(line),
            StreamEvent::Unreadable => action == RelayAction::Abort(ToolError::Io),
            StreamEvent::Closed => action == RelayAction::Finish,
        },
{
    match event {
        StreamEvent::Line(line) => RelayAction::Echo(line),
        StreamEvent::Unreadable => RelayAction::Abort(ToolError::Io),
        StreamEvent::Closed => RelayAction::Finish,
    }
}

/// A bytecode path decides the payload: with one, the plan copies it into
/// place and is the same whatever source path the request holds and whether
/// or not a compiler is configured.
pub proof fn lemma_bytecode_preferred(
    request: FlashRequestView,
    config: ToolConfigView,
    other_source: Option<Seq<char>>,
    other_compiler: Option<Seq<char>>,
)
    requires
        request.bytecode_path.is_some(),
    ensures
        flash_plan(request, config) == flash_plan(
            FlashRequestView { source_path: other_source, ..request },
            ToolConfigView { compiler_path: other_compiler, ..config },
        ),
        config.sanusb_path.is_some() ==> flash_plan(request, config) == performing(
            seq![
                copy_step(request.config_path, config.sanusb_path.unwrap()),
                copy_step(
                    request.bytecode_path.unwrap(),
                    payload_path(config.sanusb_path.unwrap()),
                ),
                runner_step(config.sanusb_path.unwrap()),
            ],
        ),
{
}

/// A request with neither a source path nor a bytecode path always fails,
/// and never runs the flashing project; where a flashing-project path is
/// configured, it fails as an invalid request.
pub proof fn lemma_no_payload_fails(request: FlashRequestView, config: ToolConfigView)
    requires
        request.source_path.is_none(),
        request.bytecode_path.is_none(),
    ensures
        flash_plan(request, config).failure.is_some(),
        flash_plan(request, config).steps.len() <= 1,
        config.sanusb_path.is_some() ==> flash_plan(request, config).failure == Some(
            ToolError::Validation(Invalid::NoPayload),
        ),
{
}

} // verus!
