use crate::error::{PipelineError, PipelineErrorView};
use crate::text::same_text;
use vstd::prelude::*;
use vstd::string::StringExecFns;

verus! {

/// The six programmable points of the graphics pipeline at which a shader can run.
#[derive(Clone, Copy, Debug, PartialEq, Eq, Structural)]
pub enum StageKind {
    Vertex,
    Fragment,
    Geometry,
    TessellationControl,
    TessellationEvaluation,
    Compute,
}

impl StageKind {
    /// The name under which a shader declares this stage.
    pub open spec fn name(self) -> Seq<char> {
        match self {
            StageKind::Vertex => "vertex"@,
            StageKind::Fragment => "fragment"@,
            StageKind::Geometry => "geometry"@,
            StageKind::TessellationControl => "tess_ctrl"@,
            StageKind::TessellationEvaluation => "tess_eval"@,
            StageKind::Compute => "compute"@,
        }
    }

    /// The name under which a shader declares this stage.
    pub fn as_str(&self) -> (s: &'static str)
        ensures
            s@ == self.name(),
    {
        match self {
            StageKind::Vertex => "vertex",
            StageKind::Fragment => "fragment",
            StageKind::Geometry => "geometry",
            StageKind::TessellationControl => "tess_ctrl",
            StageKind::TessellationEvaluation => "tess_eval",
            StageKind::Compute => "compute",
        }
    }
}

/// The stage that a declared name stands for, if it is an accepted name.
pub open spec fn stage_of(name: Seq<char>) -> Option<StageKind> {
    if name == "vertex"@ {
        Some(StageKind::Vertex)
    } else if name == "fragment"@ {
        Some(StageKind::Fragment)
    } else if name == "geometry"@ {
        Some(StageKind::Geometry)
    } else if name == "tess_ctrl"@ {
        Some(StageKind::TessellationControl)
    } else if name == "tess_eval"@ {
        Some(StageKind::TessellationEvaluation)
    } else if name == "compute"@ {
        Some(StageKind::Compute)
    } else {
        None
    }
}

/// The accepted stage names, in the order in which they are reported.
pub open spec fn accepted_stage_names() -> Seq<Seq<char>> {
    seq![
        "vertex"@,
        "fragment"@,
        "geometry"@,
        "tess_ctrl"@,
        "tess_eval"@,
        "compute"@,
    ]
}

proof fn reveal_stage_names()
    ensures
        "vertex"@ == seq!['v', 'e', 'r', 't', 'e', 'x'],
        "fragment"@ == seq!['f', 'r', 'a', 'g', 'm', 'e', 'n', 't'],
        "geometry"@ == seq!['g', 'e', 'o', 'm', 'e', 't', 'r', 'y'],
        "tess_ctrl"@ == seq!['t', 'e', 's', 's', '_', 'c', 't', 'r', 'l'],
        "tess_eval"@ == seq!['t', 'e', 's', 's', '_', 'e', 'v', 'a', 'l'],
        "compute"@ == seq!['c', 'o', 'm', 'p', 'u', 't', 'e'],
{
    reveal_strlit("vertex");
    reveal_strlit("fragment");
    reveal_strlit("geometry");
    reveal_strlit("tess_ctrl");
    reveal_strlit("tess_eval");
    reveal_strlit("compute");
    assert("vertex"@ =~= seq!['v', 'e', 'r', 't', 'e', 'x']);
    assert("fragment"@ =~= seq!['f', 'r', 'a', 'g', 'm', 'e', 'n', 't']);
    assert("geometry"@ =~= seq!['g', 'e', 'o', 'm', 'e', 't', 'r', 'y']);
    assert("tess_ctrl"@ =~= seq!['t', 'e', 's', 's', '_', 'c', 't', 'r', 'l']);
    assert("tess_eval"@ =~= seq!['t', 'e', 's', 's', '_', 'e', 'v', 'a', 'l']);
    assert("compute"@ =~= seq!['c', 'o', 'm', 'p', 'u', 't', 'e']);
}

/// Each stage is declared by its own name: classifying the name of a stage gives
/// that stage back.
pub proof fn lemma_stage_of_name(kind: StageKind)
    ensures
        stage_of(kind.name()) == Some(kind),
{
    reveal_stage_names();
    assert("vertex"@.len() == 6 && "fragment"@.len() == 8 && "geometry"@.len() == 8);
    assert("tess_ctrl"@.len() == 9 && "tess_eval"@.len() == 9 && "compute"@.len() == 7);
    assert("fragment"@[0] == 'f' && "geometry"@[0] == 'g');
    assert("tess_ctrl"@[5] == 'c' && "tess_eval"@[5] == 'e');
    assert("vertex"@[0] == 'v' && "compute"@[0] == 'c');
}

/// No two names share a stage: two accepted names with the same stage are the
/// same name.
pub proof fn lemma_stage_names_distinct(a: Seq<char>, b: Seq<char>)
    requires
        stage_of(a) is Some,
        stage_of(a) == stage_of(b),
    ensures
        a == b,
{
}

/// A name is accepted exactly when it is one of the six listed names, and then it
/// is the name of the stage it stands for.
pub proof fn lemma_accepted_names(name: Seq<char>)
    ensures
        stage_of(name) is Some <==> accepted_stage_names().contains(name),
        stage_of(name) matches Some(kind) ==> kind.name() == name,
{
    let names = accepted_stage_names();
    assert(names[0] == "vertex"@ && names[1] == "fragment"@ && names[2] == "geometry"@);
    assert(names[3] == "tess_ctrl"@ && names[4] == "tess_eval"@ && names[5] == "compute"@);
}

/// The accepted stage names, as reported with an unknown stage.
pub fn stage_names() -> (names: Vec<String>)
    ensures
        names.deep_view() == accepted_stage_names(),
{
    let mut names: Vec<String> = Vec::new();
    names.push(String::from_str("vertex"));
    names.push(String::from_str("fragment"));
    names.push(String::from_str("geometry"));
    names.push(String::from_str("tess_ctrl"));
    names.push(String::from_str("tess_eval"));
    names.push(String::from_str("compute"));
    assert(names.deep_view() =~= accepted_stage_names());
    names
}

/// Maps a declared stage name to its stage. Any name other than the six accepted
/// ones is refused, and the refusal carries the name and the accepted names.
pub fn classify_stage(name: &str) -> (r: Result<StageKind, PipelineError>)
    ensures
        match stage_of(name@) {
            Some(kind) => r == Ok::<StageKind, PipelineError>(kind),
            None => r matches Err(e) && e@ == (PipelineErrorView::UnknownStage {
                value: name@,
                accepted: accepted_stage_names(),
            }),
        },
{
    if same_text(name, "vertex") {
        Ok(StageKind::Vertex)
    } else if same_text(name, "fragment") {
        Ok(StageKind::Fragment)
    } else if same_text(name, "geometry") {
        Ok(StageKind::Geometry)
    } else if same_text(name, "tess_ctrl") {
        Ok(StageKind::TessellationControl)
    } else if same_text(name, "tess_eval") {
        Ok(StageKind::TessellationEvaluation)
    } else if same_text(name, "compute") {
        Ok(StageKind::Compute)
    } else {
        Err(PipelineError::UnknownStage { value: String::from_str(name), accepted: stage_names() })
    }
}

} // verus!
