//! The dispatcher: one command in, one plan out.

use vstd::prelude::*;
use crate::compile::{
    compile_plan, path_extension, plan_compile, CompileRequest, CompileRequestView,
};
use crate::config::{empty_config, merged, text_of, ToolConfig, ToolConfigView};
use crate::document::{load, loaded, render, rendered};
use crate::error::ToolError;
use crate::fetch::{fetch_steps, seed_config, seeded, steps};
use crate::flash::{flash_plan, plan_flash, FlashRequest, FlashRequestView};
use crate::plan::{after, failing, performing, prepend_steps, Plan, PlanView, Step, StepView};

verus! {

/// One operation of the tool.
#[derive(Clone, Debug, PartialEq, Eq)]
pub enum Command {
    /// Fetch the toolchain and seed the configuration with its paths.
    Download,
    /// Merge the given fields into the persisted configuration.
    Config(ToolConfig),
    /// Compile a source file.
    Compile(CompileRequest),
    /// Flash a payload.
    Flash(FlashRequest),
}

/// A [`Command`] as plain text.
pub enum CommandView {
    Download,
    Config(ToolConfigView),
    Compile(CompileRequestView),
    Flash(FlashRequestView),
}

impl View for Command {
    type V = CommandView;

    open spec fn view(&self) -> CommandView {
        match *self {
            Command::Download => CommandView::Download,
            Command::Config(updates) => CommandView::Config(updates@),
            Command::Compile(request) => CommandView::Compile(request@),
            Command::Flash(request) => CommandView::Flash(request@),
        }
    }
}

/// What was read from the machine before planning.
#[derive(Clone, Debug, PartialEq, Eq)]
pub struct Surroundings {
    /// The directory that holds the executable; the configuration file lies
    /// in it.
    pub base_dir: String,
    /// The text of the configuration file, `None` where there is no file.
    pub config_text: Option<String>,
    /// Whether the source path of a compile request exists.
    pub source_exists: bool,
}

/// [`Surroundings`] as plain values.
pub struct SurroundingsView {
    pub base_dir: Seq<char>,
    pub config_text: Option<Seq<char>>,
    pub source_exists: bool,
}

impl View for Surroundings {
    type V = SurroundingsView;

    open spec fn view(&self) -> SurroundingsView {
        SurroundingsView {
            base_dir: self.base_dir@,
            config_text: text_of(self.config_text),
            source_exists: self.source_exists,
        }
    }
}

/// The path of the configuration file below `base`.
pub open spec fn config_file(base: Seq<char>) -> Seq<char> {
    base + "/config.toml"@
}

/// The plan that persists `config`: one write of its document, or a failure
/// with an I/O error where the document cannot be written down.
pub open spec fn persist_plan(config: ToolConfigView, base: Seq<char>) -> PlanView {
    match rendered(config) {
        None => failing(Seq::empty(), ToolError::Io),
        Some(text) => performing(seq![StepView::Write { path: config_file(base), text }]),
    }
}

/// The plan for a configuration update: load, merge, persist.
pub open spec fn config_plan(updates: ToolConfigView, around: SurroundingsView) -> PlanView {
    match loaded(around.config_text) {
        Err(e) => failing(Seq::empty(), e),
        Ok(existing) => persist_plan(merged(existing, updates), around.base_dir),
    }
}

/// The plan for each command.
pub open spec fn run_plan(command: CommandView, around: SurroundingsView) -> PlanView {
    match command {
        CommandView::Download => after(
            fetch_steps(),
            config_plan(seeded(around.base_dir), around),
        ),
        CommandView::Config(updates) => config_plan(updates, around),
        CommandView::Compile(request) => match loaded(around.config_text) {
            Err(e) => failing(Seq::empty(), e),
            Ok(config) => compile_plan(
                request,
                config,
                around.source_exists,
                path_extension(request.source_path),
            ),
        },
        CommandView::Flash(request) => match loaded(around.config_text) {
            Err(e) => failing(Seq::empty(), e),
            Ok(config) => flash_plan(request, config),
        },
    }
}

/// Plans the write of `config` to the configuration file below `base`.
pub fn persist(config: &ToolConfig, base: &str) -> (plan: Plan)
    ensures
        plan@ == persist_plan(config@, base@),
{
    match render(config) {
        None => Plan::refuse(ToolError::Io),
        Some(text) => Plan::single(
            Step::Write { path: String::from_str(base).concat("/config.toml"), text },
        ),
    }
}

/// Plans a configuration update: the persisted record is loaded, `updates`
/// is merged into it, and the result is written back.
pub fn plan_config(updates: &ToolConfig, around: &Surroundings) -> (plan: Plan)
    ensures
        plan@ == config_plan(updates@, around@),
{
    match load(&around.config_text) {
        Err(e) => Plan::refuse(e),
        Ok(existing) => persist(&ToolConfig::merge(&existing, updates), around.base_dir.as_str()),
    }
}

/// Plans one command from what was read of the machine.
///
/// Every command starts from the persisted configuration; a malformed
/// configuration file fails `config`, `compile` and `flash` before anything
/// is done, and `download` once the toolchain has been fetched.
pub fn run(command: &Command, around: &Surroundings) -> (plan: Plan)
    ensures
        plan@ == run_plan(command@, around@),
{
    match command {
        Command::Download => {
            let seeds = seed_config(around.base_dir.as_str());
            prepend_steps(steps(), plan_config(&seeds, around))
        },
        Command::Config(updates) => plan_config(updates, around),
        Command::Compile(request) => match load(&around.config_text) {
            Err(e) => Plan::refuse(e),
            Ok(config) => plan_compile(request, &config, around.source_exists),
        },
        Command::Flash(request) => match load(&around.config_text) {
            Err(e) => Plan::refuse(e),
            Ok(config) => plan_flash(request, &config),
        },
    }
}

/// A configuration update that supplies no field writes back the record
/// that was loaded, unchanged.
pub proof fn lemma_empty_update_persists_loaded(around: SurroundingsView, existing: ToolConfigView)
    requires
        loaded(around.config_text) == Ok::<ToolConfigView, ToolError>(existing),
    ensures
        config_plan(empty_config(), around) == persist_plan(existing, around.base_dir),
{
    assert(merged(existing, empty_config()) == existing);
}

/// Where the persisted record loads and the merged record can be written
/// down, `config` plans exactly one step: the write of the merged record's
/// document to the configuration file.
pub proof fn lemma_config_writes_merge(
    updates: ToolConfigView,
    around: SurroundingsView,
    existing: ToolConfigView,
    text: Seq<char>,
)
    requires
        loaded(around.config_text) == Ok::<ToolConfigView, ToolError>(existing),
        rendered(merged(existing, updates)) == Some(text),
    ensures
        run_plan(CommandView::Config(updates), around) == performing(
            seq![StepView::Write { path: config_file(around.base_dir), text }],
        ),
{
}

} // verus!
