use vstd::prelude::*;

verus! {

/// Every way in which registering a structure or building a shader can fail.
#[derive(Debug, PartialEq, Eq)]
pub enum PipelineError {
    /// The structure does not declare a fixed field layout.
    Layout,
    /// The item that was offered for registration is not a structure with named fields.
    NotAStructure,
    /// A placeholder or a lookup names a structure that was never registered.
    UnknownStructure { name: String },
    /// The shader declares neither inline text nor a path.
    MissingSource,
    /// The shader declares more than one source.
    AmbiguousSource,
    /// The declared path does not lead to a regular file.
    FileNotFound { path: String },
    /// The file at the declared path could not be read as text.
    FileRead { path: String },
    /// The shader declares no stage.
    MissingStage,
    /// The declared stage is not one of the accepted names.
    UnknownStage { value: String, accepted: Vec<String> },
    /// The compiler rejected the source; `message` is its diagnostic, unchanged.
    Compilation { message: String },
    /// The reflector could not process the compiled artifact.
    Reflection { message: String },
}

/// The mathematical content of a [`PipelineError`].
pub enum PipelineErrorView {
    Layout,
    NotAStructure,
    UnknownStructure { name: Seq<char> },
    MissingSource,
    AmbiguousSource,
    FileNotFound { path: Seq<char> },
    FileRead { path: Seq<char> },
    MissingStage,
    UnknownStage { value: Seq<char>, accepted: Seq<Seq<char>> },
    Compilation { message: Seq<char> },
    Reflection { message: Seq<char> },
}

impl View for PipelineError {
    type V = PipelineErrorView;

    open spec fn view(&self) -> PipelineErrorView {
        match *self {
            PipelineError::Layout => PipelineErrorView::Layout,
            PipelineError::NotAStructure => PipelineErrorView::NotAStructure,
            PipelineError::UnknownStructure { name } => PipelineErrorView::UnknownStructure {
                name: name@,
            },
            PipelineError::MissingSource => PipelineErrorView::MissingSource,
            PipelineError::AmbiguousSource => PipelineErrorView::AmbiguousSource,
            PipelineError::FileNotFound { path } => PipelineErrorView::FileNotFound { path: path@ },
            PipelineError::FileRead { path } => PipelineErrorView::FileRead { path: path@ },
            PipelineError::MissingStage => PipelineErrorView::MissingStage,
            PipelineError::UnknownStage { value, accepted } => PipelineErrorView::UnknownStage {
                value: value@,
                accepted: accepted.deep_view(),
            },
            PipelineError::Compilation { message } => PipelineErrorView::Compilation {
                message: message@,
            },
            PipelineError::Reflection { message } => PipelineErrorView::Reflection {
                message: message@,
            },
        }
    }
}

} // verus!
