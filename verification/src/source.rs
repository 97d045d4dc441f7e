use crate::attribute::{attribute_text, text_value, Attribute};
use crate::error::{PipelineError, PipelineErrorView};
use vstd::prelude::*;

verus! {

/// Where the text of a shader comes from.
#[derive(Debug, PartialEq, Eq)]
pub enum SourceKind {
    /// The text itself, written in the declaration.
    Src(String),
    /// The path of a file that holds the text, relative to the project root.
    Path(String),
}

/// The mathematical content of a [`SourceKind`].
pub enum SourceKindView {
    Src(Seq<char>),
    Path(Seq<char>),
}

impl View for SourceKind {
    type V = SourceKindView;

    open spec fn view(&self) -> SourceKindView {
        match *self {
            SourceKind::Src(text) => SourceKindView::Src(text@),
            SourceKind::Path(path) => SourceKindView::Path(path@),
        }
    }
}

/// What was found at the path of a shader file.
#[derive(Debug, PartialEq, Eq)]
pub enum FileOutcome {
    /// The path does not lead to a regular file.
    NotAFile,
    /// The file is there, but could not be read as text in full.
    Unreadable,
    /// The text of the file.
    Text(String),
}

/// The mathematical content of a [`FileOutcome`].
pub enum FileOutcomeView {
    NotAFile,
    Unreadable,
    Text(Seq<char>),
}

impl View for FileOutcome {
    type V = FileOutcomeView;

    open spec fn view(&self) -> FileOutcomeView {
        match *self {
            FileOutcome::NotAFile => FileOutcomeView::NotAFile,
            FileOutcome::Unreadable => FileOutcomeView::Unreadable,
            FileOutcome::Text(text) => FileOutcomeView::Text(text@),
        }
    }
}

/// The source that one attribute declares: `src = "text"` declares inline
/// text, `path = "text"` a file; any other attribute declares none.
pub open spec fn source_of(attr: Attribute) -> Option<SourceKindView> {
    match text_value(attr, "src"@) {
        Some(text) => Some(SourceKindView::Src(text)),
        None => match text_value(attr, "path"@) {
            Some(path) => Some(SourceKindView::Path(path)),
            None => None,
        },
    }
}

/// The sources that the attributes declare, in the order of the attributes.
pub open spec fn source_candidates(attrs: Seq<Attribute>) -> Seq<SourceKindView> {
    attrs.filter_map(|attr: Attribute| source_of(attr))
}

/// The sources declared by the first `n + 1` attributes are those declared by
/// the first `n`, followed by that of the attribute at `n` if it declares one.
pub proof fn lemma_source_candidates_step(attrs: Seq<Attribute>, n: int)
    requires
        0 <= n < attrs.len(),
    ensures
        source_candidates(attrs.take(n + 1)) == source_candidates(attrs.take(n)) + (
        match source_of(attrs[n]) {
            Some(kind) => seq![kind],
            None => Seq::<SourceKindView>::empty(),
        }),
{
    attrs.lemma_filter_map_take_succ(|attr: Attribute| source_of(attr), n);
}

/// The source that one attribute declares, if it declares one.
pub fn attribute_source(attr: &Attribute) -> (r: Option<SourceKind>)
    ensures
        match source_of(*attr) {
            Some(kind) => r matches Some(found) && found@ == kind,
            None => r is None,
        },
{
    match attribute_text(attr, "src") {
        Some(text) => Some(SourceKind::Src(text)),
        None => match attribute_text(attr, "path") {
            Some(path) => Some(SourceKind::Path(path)),
            None => None,
        },
    }
}

/// Picks the source of a shader among its attributes. Exactly one attribute
/// must declare a source, inline or by path: with none the source is missing,
/// with two or more, of whatever kinds, it is ambiguous.
pub fn select_source(attrs: &Vec<Attribute>) -> (r: Result<SourceKind, PipelineError>)
    ensures
        match r {
            Ok(kind) => source_candidates(attrs@).len() == 1 && kind@ == source_candidates(
                attrs@,
            )[0],
            Err(e) => {
                ||| source_candidates(attrs@).len() == 0 && e@ == PipelineErrorView::MissingSource
                ||| source_candidates(attrs@).len() > 1 && e@
                    == PipelineErrorView::AmbiguousSource
            },
        },
{
    let mut first: Option<SourceKind> = None;
    let mut several = false;
    let mut i: usize = 0;
    proof {
        assert(attrs@.take(0) =~= Seq::<Attribute>::empty());
        assert(source_candidates(Seq::<Attribute>::empty()) =~= Seq::<SourceKindView>::empty());
    }
    while i < attrs.len()
        invariant
            i <= attrs.len(),
            first is None <==> source_candidates(attrs@.take(i as int)).len() == 0,
            first matches Some(kind) ==> kind@ == source_candidates(attrs@.take(i as int))[0],
            several <==> source_candidates(attrs@.take(i as int)).len() > 1,
        decreases attrs.len() - i,
    {
        proof {
            lemma_source_candidates_step(attrs@, i as int);
        }
        match attribute_source(&attrs[i]) {
            Some(kind) => {
                if first.is_none() {
                    first = Some(kind);
                } else {
                    several = true;
                }
            },
            None => {},
        }
        i = i + 1;
    }
    assert(attrs@.take(i as int) =~= attrs@);
    match first {
        None => Err(PipelineError::MissingSource),
        Some(kind) => if several {
            Err(PipelineError::AmbiguousSource)
        } else {
            Ok(kind)
        },
    }
}

/// The text of a shader whose source is the file at `path`, from what was found
/// there: the text that was read, or the failure that names the path.
pub fn loaded_source(path: String, outcome: FileOutcome) -> (r: Result<String, PipelineError>)
    ensures
        match outcome@ {
            FileOutcomeView::NotAFile => r matches Err(e) && e@ == (PipelineErrorView::FileNotFound {
                path: path@,
            }),
            FileOutcomeView::Unreadable => r matches Err(e) && e@ == (PipelineErrorView::FileRead {
                path: path@,
            }),
            FileOutcomeView::Text(text) => r matches Ok(source) && source@ == text,
        },
{
    match outcome {
        FileOutcome::NotAFile => Err(PipelineError::FileNotFound { path }),
        FileOutcome::Unreadable => Err(PipelineError::FileRead { path }),
        FileOutcome::Text(text) => Ok(text),
    }
}

} // verus!
