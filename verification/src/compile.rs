//! Planning the invocation of the external compiler.

use vstd::prelude::*;
use crate::config::{text_of, ToolConfig, ToolConfigView};
use crate::error::{Invalid, Missing, ToolError};
use crate::plan::{failing, invocation, invoke, performing, Plan, PlanView, Relay};

verus! {

/// A request to compile one source file.
#[derive(Clone, Debug, PartialEq, Eq)]
pub struct CompileRequest {
    pub source_path: String,
    pub output_path: Option<String>,
}

/// A [`CompileRequest`] as plain text.
pub struct CompileRequestView {
    pub source_path: Seq<char>,
    pub output_path: Option<Seq<char>>,
}

impl View for CompileRequest {
    type V = CompileRequestView;

    open spec fn view(&self) -> CompileRequestView {
        CompileRequestView {
            source_path: self.source_path@,
            output_path: text_of(self.output_path),
        }
    }
}

/// The extension of a path as `std::path::Path::extension` gives it, for a
/// path that is valid UTF-8.
pub uninterp spec fn path_extension(path: Seq<char>) -> Option<Seq<char>>;

/// Calls `std::path::Path::extension` on `path`. The contract only gives the
/// result its name: what the extension of a given path is, is left to std.
#[verifier::external_body]
fn extension_of(path: &str) -> (extension: Option<String>)
    ensures
        text_of(extension) == path_extension(path@),
{
    std::path::Path::new(path).extension().and_then(|e| e.to_str()).map(|e| e.to_string())
}

/// The extension that a source file carries.
pub open spec fn source_extension() -> Seq<char> {
    seq!['s', 'a', 'n']
}

/// Whether `extension` is the source-file extension.
pub open spec fn is_source_extension(extension: Option<Seq<char>>) -> bool {
    extension == Some(source_extension())
}

/// The output path derived from a source path: the source path with the
/// single character `b` appended.
pub open spec fn derived_output(source: Seq<char>) -> Seq<char> {
    source.push('b')
}

/// The output path of a request: the explicit one where it is given, else
/// the derived one.
pub open spec fn output_of(request: CompileRequestView) -> Seq<char> {
    match request.output_path {
        Some(path) => path,
        None => derived_output(request.source_path),
    }
}

/// The plan for a compile request, given the configuration, whether the
/// source path exists and the extension of the source path.
pub open spec fn compile_plan(
    request: CompileRequestView,
    config: ToolConfigView,
    source_exists: bool,
    extension: Option<Seq<char>>,
) -> PlanView {
    match config.compiler_path {
        None => failing(Seq::empty(), ToolError::Config(Missing::Compiler)),
        Some(compiler) => if !source_exists {
            failing(Seq::empty(), ToolError::Validation(Invalid::SourceMissing))
        } else if !is_source_extension(extension) {
            failing(Seq::empty(), ToolError::Validation(Invalid::WrongExtension))
        } else {
            performing(
                seq![invocation(compiler, request.source_path, output_of(request), Relay::Whole)],
            )
        },
    }
}

/// Tells whether `extension` is the source-file extension `san`.
pub fn accepts_extension(extension: &Option<String>) -> (accepted: bool)
    ensures
        accepted == is_source_extension(text_of(*extension)),
{
    proof {
        reveal_strlit("san");
        assert("san"@ =~= source_extension());
    }
    match extension {
        Some(e) => *e == String::from_str("san"),
        None => false,
    }
}

/// The path that the compiler writes to for `request`.
pub fn output_path(request: &CompileRequest) -> (path: String)
    ensures
        path@ == output_of(request@),
        request.output_path.is_none() ==> path@.len() == request.source_path@.len() + 1,
        request.output_path.is_none() ==> path@.subrange(0, request.source_path@.len() as int)
            == request.source_path@,
{
    match &request.output_path {
        Some(path) => path.clone(),
        None => {
            proof {
                reveal_strlit("b");
                assert(request.source_path@ + "b"@ =~= request.source_path@.push('b'));
                lemma_derived_output(request.source_path@);
            }
            request.source_path.clone().concat("b")
        },
    }
}

/// Plans a compile request from the extension of its source path.
///
/// The checks are made in this order: a compiler must be configured, the
/// source must exist, and its extension must be `san`. Only then is the
/// compiler invoked, as `<compiler> <source> <output>`, with its captured
/// output relayed once it has finished.
pub fn plan_compile_with(
    request: &CompileRequest,
    config: &ToolConfig,
    source_exists: bool,
    extension: &Option<String>,
) -> (plan: Plan)
    ensures
        plan@ == compile_plan(request@, config@, source_exists, text_of(*extension)),
{
    match &config.compiler_path {
        None => Plan::refuse(ToolError::Config(Missing::Compiler)),
        Some(compiler) => {
            if !source_exists {
                Plan::refuse(ToolError::Validation(Invalid::SourceMissing))
            } else if !accepts_extension(extension) {
                Plan::refuse(ToolError::Validation(Invalid::WrongExtension))
            } else {
                Plan::single(
                    invoke(
                        compiler.clone(),
                        request.source_path.clone(),
                        output_path(request),
                        Relay::Whole,
                    ),
                )
            }
        },
    }
}

/// Plans a compile request, taking the extension from the source path.
pub fn plan_compile(request: &CompileRequest, config: &ToolConfig, source_exists: bool) -> (plan:
    Plan)
    ensures
        plan@ == compile_plan(
            request@,
            config@,
            source_exists,
            path_extension(request.source_path@),
        ),
{
    let extension = extension_of(request.source_path.as_str());
    plan_compile_with(request, config, source_exists, &extension)
}

/// A source path whose extension is not the source-file extension is never
/// compiled: the plan has no step and fails.
pub proof fn lemma_other_extension_rejected(
    request: CompileRequestView,
    config: ToolConfigView,
    source_exists: bool,
    extension: Option<Seq<char>>,
)
    requires
        !is_source_extension(extension),
    ensures
        compile_plan(request, config, source_exists, extension).steps == Seq::<
            crate::plan::StepView,
        >::empty(),
        compile_plan(request, config, source_exists, extension).failure.is_some(),
        config.compiler_path.is_some() && source_exists ==> compile_plan(
            request,
            config,
            source_exists,
            extension,
        ).failure == Some(ToolError::Validation(Invalid::WrongExtension)),
{
}

/// The derived output path is the source path with exactly one character
/// appended.
pub proof fn lemma_derived_output(source: Seq<char>)
    ensures
        derived_output(source).len() == source.len() + 1,
        derived_output(source).subrange(0, source.len() as int) == source,
        derived_output(source).last() == 'b',
{
    assert(derived_output(source).subrange(0, source.len() as int) =~= source);
}

/// With no explicit output path, an accepted request invokes the compiler on
/// the source path and the derived output path.
pub proof fn lemma_compile_uses_derived_output(
    request: CompileRequestView,
    config: ToolConfigView,
    extension: Option<Seq<char>>,
)
    requires
        config.compiler_path.is_some(),
        request.output_path.is_none(),
        is_source_extension(extension),
    ensures
        compile_plan(request, config, true, extension) == performing(
            seq![
                invocation(
                    config.compiler_path.unwrap(),
                    request.source_path,
                    derived_output(request.source_path),
                    Relay::Whole,
                ),
            ],
        ),
{
}

} // verus!
