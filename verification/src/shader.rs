use crate::attribute::{first_text_value, text_values, Attribute};
use crate::error::{PipelineError, PipelineErrorView};
use crate::placeholder::{expand, substitute, Expansion};
use crate::registry::StructRegistry;
use crate::source::{
    loaded_source, select_source, source_candidates, FileOutcome, FileOutcomeView, SourceKind,
    SourceKindView,
};
use crate::stage::{accepted_stage_names, classify_stage, stage_of, StageKind};
use vstd::prelude::*;
use vstd::string::StringExecFns;

verus! {

/// How far the build of one shader has come. Each waiting state names the
/// outside work that the driver has to do next; its result comes back as a
/// [`ShaderEvent`].
#[derive(Debug, PartialEq, Eq)]
pub enum ShaderState {
    /// Nothing has happened yet: waiting for the attributes of the declaration.
    Start,
    /// The source is a file: waiting for what is found at `path` under the
    /// project root.
    AwaitingFile { path: String, stage_name: Option<String> },
    /// Waiting for the compiler's answer to `source`, compiled for `stage`.
    AwaitingCompiler { source: String, stage: StageKind },
    /// Waiting for the binding code that the reflector derives from `artifact`
    /// for a wrapper type named `entry_name`.
    AwaitingReflector { entry_name: String, artifact: Vec<u8> },
    /// The build is complete; `binding` is its output.
    Finished { binding: String },
    /// The build was given up.
    Failed { error: PipelineError },
}

/// What the driver reports back to the build of a shader.
#[derive(Debug, PartialEq, Eq)]
pub enum ShaderEvent {
    /// The attributes of the shader's declaration.
    Declared { attrs: Vec<Attribute> },
    /// What was found at the path of the source file.
    FileRead { found: FileOutcome },
    /// The compiler's answer: the compiled artifact, or its diagnostic.
    Compiled { artifact: Result<Vec<u8>, String> },
    /// The reflector's answer: the binding code, or its complaint.
    Reflected { binding: Result<String, String> },
}

/// The mathematical content of a [`ShaderState`].
pub enum ShaderStateView {
    Start,
    AwaitingFile { path: Seq<char>, stage_name: Option<Seq<char>> },
    AwaitingCompiler { source: Seq<char>, stage: StageKind },
    AwaitingReflector { entry_name: Seq<char>, artifact: Seq<u8> },
    Finished { binding: Seq<char> },
    Failed { error: PipelineErrorView },
}

/// The mathematical content of a [`ShaderEvent`].
pub enum ShaderEventView {
    Declared { attrs: Seq<Attribute> },
    FileRead { found: FileOutcomeView },
    Compiled { artifact: Result<Seq<u8>, Seq<char>> },
    Reflected { binding: Result<Seq<char>, Seq<char>> },
}

impl View for ShaderState {
    type V = ShaderStateView;

    open spec fn view(&self) -> ShaderStateView {
        match *self {
            ShaderState::Start => ShaderStateView::Start,
            ShaderState::AwaitingFile { path, stage_name } => ShaderStateView::AwaitingFile {
                path: path@,
                stage_name: match stage_name {
                    Some(name) => Some(name@),
                    None => None,
                },
            },
            ShaderState::AwaitingCompiler { source, stage } => ShaderStateView::AwaitingCompiler {
                source: source@,
                stage,
            },
            ShaderState::AwaitingReflector {
                entry_name,
                artifact,
            } => ShaderStateView::AwaitingReflector { entry_name: entry_name@, artifact: artifact@ },
            ShaderState::Finished { binding } => ShaderStateView::Finished { binding: binding@ },
            ShaderState::Failed { error } => ShaderStateView::Failed { error: error@ },
        }
    }
}

impl View for ShaderEvent {
    type V = ShaderEventView;

    open spec fn view(&self) -> ShaderEventView {
        match *self {
            ShaderEvent::Declared { attrs } => ShaderEventView::Declared { attrs: attrs@ },
            ShaderEvent::FileRead { found } => ShaderEventView::FileRead { found: found@ },
            ShaderEvent::Compiled { artifact } => ShaderEventView::Compiled {
                artifact: match artifact {
                    Ok(bytes) => Ok(bytes@),
                    Err(message) => Err(message@),
                },
            },
            ShaderEvent::Reflected { binding } => ShaderEventView::Reflected {
                binding: match binding {
                    Ok(text) => Ok(text@),
                    Err(message) => Err(message@),
                },
            },
        }
    }
}

/// The name of the wrapper type that the binding code defines.
pub open spec fn entry_name() -> Seq<char> {
    "Shader"@
}

/// The stage name that the attributes declare: the first text given to `ty`.
pub open spec fn declared_stage(attrs: Seq<Attribute>) -> Option<Seq<char>> {
    if text_values(attrs, "ty"@).len() > 0 {
        Some(text_values(attrs, "ty"@)[0])
    } else {
        None
    }
}

/// The state that follows once the text of the shader is at hand: the stage
/// must be declared and accepted, and every placeholder of the text must name
/// a registered structure. Then the rewritten text goes to the compiler.
pub open spec fn prepared(
    defs: Map<Seq<char>, Seq<char>>,
    source: Seq<char>,
    stage_name: Option<Seq<char>>,
) -> ShaderStateView {
    match stage_name {
        None => ShaderStateView::Failed { error: PipelineErrorView::MissingStage },
        Some(name) => match stage_of(name) {
            None => ShaderStateView::Failed {
                error: PipelineErrorView::UnknownStage {
                    value: name,
                    accepted: accepted_stage_names(),
                },
            },
            Some(stage) => match expand(source, defs) {
                Expansion::Unknown(structure) => ShaderStateView::Failed {
                    error: PipelineErrorView::UnknownStructure { name: structure },
                },
                Expansion::Text(text) => ShaderStateView::AwaitingCompiler { source: text, stage },
            },
        },
    }
}

/// The state that follows the declaration of a shader with these attributes.
pub open spec fn declared(defs: Map<Seq<char>, Seq<char>>, attrs: Seq<Attribute>) -> ShaderStateView {
    let sources = source_candidates(attrs);
    if sources.len() == 0 {
        ShaderStateView::Failed { error: PipelineErrorView::MissingSource }
    } else if sources.len() > 1 {
        ShaderStateView::Failed { error: PipelineErrorView::AmbiguousSource }
    } else {
        match sources[0] {
            SourceKindView::Src(text) => prepared(defs, text, declared_stage(attrs)),
            SourceKindView::Path(path) => ShaderStateView::AwaitingFile {
                path,
                stage_name: declared_stage(attrs),
            },
        }
    }
}

/// The state that follows `state` when `event` is reported, with the structures
/// `defs` registered. An event that does not answer what the state waits for
/// leaves the state as it is; so does every event once the build is finished
/// or has failed.
pub open spec fn shader_step(
    defs: Map<Seq<char>, Seq<char>>,
    state: ShaderStateView,
    event: ShaderEventView,
) -> ShaderStateView {
    match state {
        ShaderStateView::Start => match event {
            ShaderEventView::Declared { attrs } => declared(defs, attrs),
            _ => state,
        },
        ShaderStateView::AwaitingFile { path, stage_name } => match event {
            ShaderEventView::FileRead { found } => match found {
                FileOutcomeView::NotAFile => ShaderStateView::Failed {
                    error: PipelineErrorView::FileNotFound { path },
                },
                FileOutcomeView::Unreadable => ShaderStateView::Failed {
                    error: PipelineErrorView::FileRead { path },
                },
                FileOutcomeView::Text(text) => prepared(defs, text, stage_name),
            },
            _ => state,
        },
        ShaderStateView::AwaitingCompiler { .. } => match event {
            ShaderEventView::Compiled { artifact } => match artifact {
                Ok(bytes) => ShaderStateView::AwaitingReflector {
                    entry_name: entry_name(),
                    artifact: bytes,
                },
                Err(message) => ShaderStateView::Failed {
                    error: PipelineErrorView::Compilation { message },
                },
            },
            _ => state,
        },
        ShaderStateView::AwaitingReflector { .. } => match event {
            ShaderEventView::Reflected { binding } => match binding {
                Ok(text) => ShaderStateView::Finished { binding: text },
                Err(message) => ShaderStateView::Failed {
                    error: PipelineErrorView::Reflection { message },
                },
            },
            _ => state,
        },
        ShaderStateView::Finished { .. } => state,
        ShaderStateView::Failed { .. } => state,
    }
}

/// Preparing a text never leads back to the start.
pub proof fn lemma_prepared_not_start(
    defs: Map<Seq<char>, Seq<char>>,
    source: Seq<char>,
    stage_name: Option<Seq<char>>,
)
    ensures
        prepared(defs, source, stage_name) is AwaitingCompiler || prepared(
            defs,
            source,
            stage_name,
        ) is Failed,
{
}

/// A build never returns to its start: only a build that has not begun is at
/// the start after an event.
pub proof fn lemma_start_is_left(
    defs: Map<Seq<char>, Seq<char>>,
    state: ShaderStateView,
    event: ShaderEventView,
)
    ensures
        shader_step(defs, state, event) is Start ==> state is Start && !(event is Declared),
{
}

/// A finished build and a failed build stay as they are, whatever is reported.
pub proof fn lemma_final_states_stay(
    defs: Map<Seq<char>, Seq<char>>,
    state: ShaderStateView,
    event: ShaderEventView,
)
    requires
        state is Finished || state is Failed,
    ensures
        shader_step(defs, state, event) == state,
{
}

/// A text goes to the compiler only with a declared and accepted stage, and
/// with every placeholder replaced by the definition of a registered structure.
pub proof fn lemma_compiler_gets_expanded_text(
    defs: Map<Seq<char>, Seq<char>>,
    source: Seq<char>,
    stage_name: Option<Seq<char>>,
)
    requires
        prepared(defs, source, stage_name) is AwaitingCompiler,
    ensures
        stage_name matches Some(name) && stage_of(name) matches Some(stage) && prepared(
            defs,
            source,
            stage_name,
        ) == (ShaderStateView::AwaitingCompiler {
            source: expand(source, defs)->Text_0,
            stage,
        }) && expand(source, defs) is Text,
{
}

/// Classifies the declared stage and substitutes the registered structures
/// into the text of the shader.
pub fn prepare_shader(registry: &StructRegistry, source: &str, stage_name: Option<String>) -> (next:
    ShaderState)
    ensures
        next@ == prepared(
            registry@,
            source@,
            match stage_name {
                Some(name) => Some(name@),
                None => None,
            },
        ),
{
    let name = match stage_name {
        Some(name) => name,
        None => {
            return ShaderState::Failed { error: PipelineError::MissingStage };
        },
    };
    let stage = match classify_stage(name.as_str()) {
        Ok(stage) => stage,
        Err(error) => {
            return ShaderState::Failed { error };
        },
    };
    match substitute(source, registry) {
        Ok(text) => ShaderState::AwaitingCompiler { source: text, stage },
        Err(error) => ShaderState::Failed { error },
    }
}

/// Takes up the declaration of a shader: picks its source and, if the text is
/// written inline, prepares it for the compiler.
pub fn declare_shader(registry: &StructRegistry, attrs: &Vec<Attribute>) -> (next: ShaderState)
    ensures
        next@ == declared(registry@, attrs@),
{
    match select_source(attrs) {
        Err(error) => ShaderState::Failed { error },
        Ok(SourceKind::Src(text)) => {
            let stage_name = first_text_value(attrs, "ty");
            prepare_shader(registry, text.as_str(), stage_name)
        },
        Ok(SourceKind::Path(path)) => {
            let stage_name = first_text_value(attrs, "ty");
            ShaderState::AwaitingFile { path, stage_name }
        },
    }
}

/// Advances the build of a shader by one event. The new state tells the driver
/// what to do next: read the source file, run the compiler, run the reflector,
/// or stop with the binding code or with a failure.
pub fn derive_shader(registry: &StructRegistry, state: ShaderState, event: ShaderEvent) -> (next:
    ShaderState)
    ensures
        next@ == shader_step(registry@, state@, event@),
{
    match state {
        ShaderState::Start => match event {
            ShaderEvent::Declared { attrs } => declare_shader(registry, &attrs),
            _ => ShaderState::Start,
        },
        ShaderState::AwaitingFile { path, stage_name } => match event {
            ShaderEvent::FileRead { found } => match loaded_source(path, found) {
                Ok(text) => prepare_shader(registry, text.as_str(), stage_name),
                Err(error) => ShaderState::Failed { error },
            },
            _ => ShaderState::AwaitingFile { path, stage_name },
        },
        ShaderState::AwaitingCompiler { source, stage } => match event {
            ShaderEvent::Compiled { artifact } => match artifact {
                Ok(bytes) => ShaderState::AwaitingReflector {
                    entry_name: String::from_str("Shader"),
                    artifact: bytes,
                },
                Err(message) => ShaderState::Failed {
                    error: PipelineError::Compilation { message },
                },
            },
            _ => ShaderState::AwaitingCompiler { source, stage },
        },
        ShaderState::AwaitingReflector { entry_name, artifact } => match event {
            ShaderEvent::Reflected { binding } => match binding {
                Ok(text) => ShaderState::Finished { binding: text },
                Err(message) => ShaderState::Failed { error: PipelineError::Reflection { message } },
            },
            _ => ShaderState::AwaitingReflector { entry_name, artifact },
        },
        ShaderState::Finished { binding } => ShaderState::Finished { binding },
        ShaderState::Failed { error } => ShaderState::Failed { error },
    }
}

} // verus!
