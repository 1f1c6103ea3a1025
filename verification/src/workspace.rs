//! Choosing the build context of a run.
//!
//! A run is given two places: the grader source and the submission. The
//! build context is the directory that holds the grader source, and the
//! sandbox sees nothing outside it. A submission that lies elsewhere is
//! therefore reached through a reference, a link of the same name placed in
//! the build context.
//!
//! Paths are handled here in canonical form, as the file system gives them
//! for an entry that exists: an anchor, which is the root they start from,
//! and the names that lead from there to the entry.

use vstd::prelude::*;
use crate::error::PipelineError;
use crate::text::{are_names, copy_texts, is_name, join, joined, lemma_split_joined, split, texts_view};

verus! {

/// The two places that the user names for a run, as typed.
#[derive(Debug, Clone, PartialEq, Eq)]
pub struct WorkspacePaths {
    pub source_path: String,
    pub submission_path: String,
}

/// The canonical path of an entry that exists.
#[derive(Debug, Clone, PartialEq, Eq)]
pub struct CanonicalPath {
    /// The root that the path starts from.
    pub anchor: String,
    /// The names that lead from the anchor to the entry.
    pub components: Vec<String>,
}

/// The directory that the sandbox is given as its root.
#[derive(Debug, Clone, PartialEq, Eq)]
pub struct BuildContext {
    pub directory: CanonicalPath,
}

/// A link that stands in the build context for a submission outside it.
#[derive(Debug, Clone, PartialEq, Eq)]
pub struct Reference {
    /// What the link points to: the submission.
    pub target: CanonicalPath,
    /// Where the link lies: in the build context, under the submission's
    /// own name.
    pub location: CanonicalPath,
    /// Whether the submission is a directory. Some systems have one kind of
    /// link for directories and another for files.
    pub directory: bool,
}

/// A workspace that is ready for a run.
#[derive(Debug, Clone, PartialEq, Eq)]
pub struct Workspace {
    pub context: BuildContext,
    /// The name of the grader source in the build context.
    pub source_file_name: String,
    /// The names that lead from the build context to the submission.
    pub submission_relative: Vec<String>,
    /// The reference that the run needs, if the submission lies outside the
    /// build context.
    pub reference: Option<Reference>,
}

/// What a [`WorkspacePaths`] holds.
pub ghost struct WorkspacePathsView {
    pub source_path: Seq<char>,
    pub submission_path: Seq<char>,
}

/// What a [`CanonicalPath`] holds.
pub ghost struct PathView {
    pub anchor: Seq<char>,
    pub components: Seq<Seq<char>>,
}

/// What a [`Reference`] holds.
pub ghost struct ReferenceView {
    pub target: PathView,
    pub location: PathView,
    pub directory: bool,
}

/// What a [`Workspace`] holds.
pub ghost struct WorkspaceView {
    pub context: PathView,
    pub source_file_name: Seq<char>,
    pub submission_relative: Seq<Seq<char>>,
    pub reference: Option<ReferenceView>,
}

impl PathView {
    /// The directory that holds the entry: the path without its last name.
    pub open spec fn parent(self) -> PathView {
        PathView { anchor: self.anchor, components: self.components.drop_last() }
    }

    /// Whether the entry is `directory` or lies below it.
    pub open spec fn is_inside(self, directory: PathView) -> bool {
        &&& self.anchor == directory.anchor
        &&& directory.components.len() <= self.components.len()
        &&& self.components.take(directory.components.len() as int) == directory.components
    }

    /// The names that lead from `directory` to the entry.
    pub open spec fn relative_to(self, directory: PathView) -> Seq<Seq<char>> {
        self.components.skip(directory.components.len() as int)
    }

    /// The path that `relative` leads to from this one.
    pub open spec fn join(self, relative: Seq<Seq<char>>) -> PathView {
        PathView { anchor: self.anchor, components: self.components + relative }
    }
}

impl View for WorkspacePaths {
    type V = WorkspacePathsView;

    open spec fn view(&self) -> WorkspacePathsView {
        WorkspacePathsView {
            source_path: self.source_path@,
            submission_path: self.submission_path@,
        }
    }
}

impl View for CanonicalPath {
    type V = PathView;

    open spec fn view(&self) -> PathView {
        PathView { anchor: self.anchor@, components: texts_view(self.components@) }
    }
}

impl View for BuildContext {
    type V = PathView;

    open spec fn view(&self) -> PathView {
        self.directory@
    }
}

impl View for Reference {
    type V = ReferenceView;

    open spec fn view(&self) -> ReferenceView {
        ReferenceView {
            target: self.target@,
            location: self.location@,
            directory: self.directory,
        }
    }
}

impl View for Workspace {
    type V = WorkspaceView;

    open spec fn view(&self) -> WorkspaceView {
        WorkspaceView {
            context: self.context@,
            source_file_name: self.source_file_name@,
            submission_relative: texts_view(self.submission_relative@),
            reference: match self.reference {
                Some(reference) => Some(reference@),
                None => None,
            },
        }
    }
}

/// What an optional path holds.
pub open spec fn path_view(path: Option<CanonicalPath>) -> Option<PathView> {
    match path {
        Some(path) => Some(path@),
        None => None,
    }
}

/// The workspace for a grader source and a submission, each given by its
/// canonical path, or by `None` if it does not exist.
///
/// The build context is the directory that holds the grader source. A
/// submission inside it is reached by the names that lead to it from there,
/// and no reference is made. A submission outside it is reached by its own
/// name, through a reference of that name in the build context.
///
/// There is no workspace if an entry does not exist, if the grader source is
/// itself a root, which no directory holds, or if a submission outside the
/// build context is a root, which has no name.
pub open spec fn resolution(
    source: Option<PathView>,
    submission: Option<PathView>,
    submission_is_directory: bool,
) -> Result<WorkspaceView, PipelineError> {
    if source is None || submission is None || source->0.components.len() == 0 {
        Err(PipelineError::PathNotFound)
    } else {
        let source = source->0;
        let submission = submission->0;
        let context = source.parent();
        if submission.is_inside(context) {
            Ok(
                WorkspaceView {
                    context,
                    source_file_name: source.components.last(),
                    submission_relative: submission.relative_to(context),
                    reference: None,
                },
            )
        } else if submission.components.len() == 0 {
            Err(PipelineError::PathNotFound)
        } else {
            let name = seq![submission.components.last()];
            Ok(
                WorkspaceView {
                    context,
                    source_file_name: source.components.last(),
                    submission_relative: name,
                    reference: Some(
                        ReferenceView {
                            target: submission,
                            location: context.join(name),
                            directory: submission_is_directory,
                        },
                    ),
                },
            )
        }
    }
}

impl CanonicalPath {
    /// A copy of the path.
    pub fn duplicate(&self) -> (copy: CanonicalPath)
        ensures
            copy@ == self@,
    {
        CanonicalPath { anchor: self.anchor.clone(), components: copy_texts(&self.components) }
    }

    /// Whether two paths name the same entry.
    pub fn same_as(&self, other: &CanonicalPath) -> (same: bool)
        ensures
            same == (self@ == other@),
    {
        if self.components.len() != other.components.len() {
            assert(self@.components.len() != other@.components.len());
            return false;
        }
        assert(self@.components.take(other@.components.len() as int) =~= self@.components);
        self.is_inside(other)
    }

    /// Whether the entry is `directory` or lies below it.
    pub fn is_inside(&self, directory: &CanonicalPath) -> (inside: bool)
        ensures
            inside == self@.is_inside(directory@),
    {
        if self.anchor != directory.anchor || directory.components.len() > self.components.len() {
            return false;
        }
        let count: usize = directory.components.len();
        let mut i: usize = 0;
        while i < count
            invariant
                i <= count,
                count == directory.components.len(),
                count <= self.components.len(),
                forall|j: int| 0 <= j < i ==> self.components[j]@ == directory.components[j]@,
            decreases count - i,
        {
            if self.components[i] != directory.components[i] {
                assert(self@.components.take(count as int)[i as int] == self.components[i as int]@);
                assert(directory@.components[i as int] == directory.components[i as int]@);
                return false;
            }
            i += 1;
        }
        assert(self@.components.take(count as int) =~= directory@.components);
        true
    }

    /// The names that lead from `directory` to the entry, if the entry is
    /// `directory` or lies below it.
    pub fn strip_prefix(&self, directory: &CanonicalPath) -> (relative: Option<Vec<String>>)
        ensures
            match relative {
                Some(names) => self@.is_inside(directory@) && texts_view(names@)
                    == self@.relative_to(directory@),
                None => !self@.is_inside(directory@),
            },
    {
        if !self.is_inside(directory) {
            return None;
        }
        let mut names: Vec<String> = Vec::new();
        let start: usize = directory.components.len();
        let mut i: usize = start;
        while i < self.components.len()
            invariant
                start <= i <= self.components.len(),
                names.len() == i - start,
                forall|j: int|
                    0 <= j < i - start ==> (#[trigger] names[j])@ == self.components[start + j]@,
            decreases self.components.len() - i,
        {
            names.push(self.components[i].clone());
            i += 1;
        }
        assert(texts_view(names@) =~= self@.relative_to(directory@));
        Some(names)
    }

    /// The path of the entry called `name` in this directory.
    pub fn child(&self, name: &String) -> (path: CanonicalPath)
        ensures
            path@ == self@.join(seq![name@]),
    {
        let mut components = copy_texts(&self.components);
        components.push(name.clone());
        let path = CanonicalPath { anchor: self.anchor.clone(), components };
        assert(path@.components =~= self@.components + seq![name@]);
        path
    }
}

impl Reference {
    /// A copy of the reference.
    pub fn duplicate(&self) -> (copy: Reference)
        ensures
            copy@ == self@,
    {
        Reference {
            target: self.target.duplicate(),
            location: self.location.duplicate(),
            directory: self.directory,
        }
    }
}

impl Workspace {
    /// The path that leads from the build context to the submission, as it
    /// is written inside the sandbox: the names with `/` between them.
    pub fn submission_relative_name(&self) -> (name: String)
        ensures
            name@ == joined(self@.submission_relative, '/'),
    {
        join(&self.submission_relative, '/')
    }
}

/// Prepares the workspace for a grader source and a submission, each given
/// by its canonical path, or by `None` if it does not exist.
pub fn resolve(
    source: Option<CanonicalPath>,
    submission: Option<CanonicalPath>,
    submission_is_directory: bool,
) -> (r: Result<Workspace, PipelineError>)
    ensures
        match r {
            Ok(workspace) => resolution(
                path_view(source),
                path_view(submission),
                submission_is_directory,
            ) == Ok::<WorkspaceView, PipelineError>(workspace@),
            Err(error) => resolution(
                path_view(source),
                path_view(submission),
                submission_is_directory,
            ) == Err::<WorkspaceView, PipelineError>(error),
        },
{
    let source = match source {
        Some(source) => source,
        None => {
            return Err(PipelineError::PathNotFound);
        },
    };
    let submission = match submission {
        Some(submission) => submission,
        None => {
            return Err(PipelineError::PathNotFound);
        },
    };
    let ghost full = source@;
    let CanonicalPath { anchor, components } = source;
    let mut names = components;
    let source_file_name = match names.pop() {
        Some(name) => name,
        None => {
            return Err(PipelineError::PathNotFound);
        },
    };
    let directory = CanonicalPath { anchor, components: names };
    assert(directory@.components =~= full.components.drop_last());
    if let Some(submission_relative) = submission.strip_prefix(&directory) {
        Ok(
            Workspace {
                context: BuildContext { directory },
                source_file_name,
                submission_relative,
                reference: None,
            },
        )
    } else if submission.components.len() == 0 {
        Err(PipelineError::PathNotFound)
    } else {
        let name = submission.components[submission.components.len() - 1].clone();
        let location = directory.child(&name);
        let mut submission_relative: Vec<String> = Vec::new();
        submission_relative.push(name);
        assert(texts_view(submission_relative@) =~= seq![submission@.components.last()]);
        Ok(
            Workspace {
                context: BuildContext { directory },
                source_file_name,
                submission_relative,
                reference: Some(
                    Reference { target: submission, location, directory: submission_is_directory },
                ),
            },
        )
    }
}

/// What lies where a reference is to be placed, before it is placed.
#[derive(Debug, Clone, PartialEq, Eq)]
pub enum Existing {
    /// Nothing.
    Absent,
    /// A link, with the canonical path of what it points to.
    Link(CanonicalPath),
    /// Something else: a file, a directory, or a link that points nowhere.
    Other,
}

/// What is done about a reference.
#[derive(Debug, Clone, Copy, PartialEq, Eq, Structural)]
pub enum ReferenceStep {
    /// The reference is placed.
    Create,
    /// A link that is already there serves as the reference.
    Reuse,
}

/// What an [`Existing`] holds.
pub ghost enum ExistingView {
    Absent,
    Link(PathView),
    Other,
}

impl View for Existing {
    type V = ExistingView;

    open spec fn view(&self) -> ExistingView {
        match self {
            Existing::Absent => ExistingView::Absent,
            Existing::Link(target) => ExistingView::Link(target@),
            Existing::Other => ExistingView::Other,
        }
    }
}

/// What is done about a reference, given what lies in its place.
///
/// Where nothing lies, the reference is placed. A link that already points
/// to the submission is a reference left by an earlier run, and is used
/// again. Anything else is in the way, and nothing is overwritten.
pub open spec fn reconciled(reference: ReferenceView, existing: ExistingView) -> Result<
    ReferenceStep,
    PipelineError,
> {
    match existing {
        ExistingView::Absent => Ok(ReferenceStep::Create),
        ExistingView::Link(target) => if target == reference.target {
            Ok(ReferenceStep::Reuse)
        } else {
            Err(PipelineError::ReferenceCreationFailed)
        },
        ExistingView::Other => Err(PipelineError::ReferenceCreationFailed),
    }
}

/// Decides what is done about a reference, given what lies in its place.
pub fn reconcile(reference: &Reference, existing: &Existing) -> (r: Result<
    ReferenceStep,
    PipelineError,
>)
    ensures
        r == reconciled(reference@, existing@),
{
    match existing {
        Existing::Absent => Ok(ReferenceStep::Create),
        Existing::Link(target) => if target.same_as(&reference.target) {
            Ok(ReferenceStep::Reuse)
        } else {
            Err(PipelineError::ReferenceCreationFailed)
        },
        Existing::Other => Err(PipelineError::ReferenceCreationFailed),
    }
}

/// Whether there is a workspace for a grader source and a submission that
/// both exist: the grader source lies in a directory, and the submission
/// lies in that directory or has a name.
pub open spec fn resolvable(source: PathView, submission: PathView) -> bool {
    source.components.len() > 0 && (submission.is_inside(source.parent())
        || submission.components.len() > 0)
}

/// For a grader source and a submission that both exist, the build context
/// is the directory that holds the grader source, and the names that lead to
/// the submission lead back to it: joined to the build context, they give
/// the path of the submission, or, for a submission outside the build
/// context, the place of the reference that points to the submission.
pub proof fn lemma_relative_name_leads_back(
    source: PathView,
    submission: PathView,
    submission_is_directory: bool,
)
    ensures
        resolution(Some(source), Some(submission), submission_is_directory) is Ok <==> resolvable(
            source,
            submission,
        ),
        resolvable(source, submission) ==> ({
            let workspace = resolution(
                Some(source),
                Some(submission),
                submission_is_directory,
            )->Ok_0;
            &&& workspace.context == source.parent()
            &&& workspace.context.join(seq![workspace.source_file_name]) == source
            &&& match workspace.reference {
                None => workspace.context.join(workspace.submission_relative) == submission,
                Some(reference) => reference.target == submission && reference.location
                    == workspace.context.join(workspace.submission_relative),
            }
        }),
{
    if resolvable(source, submission) {
        let context = source.parent();
        assert(context.components + seq![source.components.last()] =~= source.components);
        if submission.is_inside(context) {
            assert(context.components + submission.relative_to(context)
                =~= submission.components);
        }
    }
}

/// The path of the submission as it is written inside the sandbox leads back
/// to the submission as well: split at each `/` and joined to the build
/// context, it gives the path of the submission, or the place of the
/// reference that points to it. This holds for a submission whose path is
/// made of names: none is empty, and none holds a `/`.
pub proof fn lemma_relative_text_leads_back(
    source: PathView,
    submission: PathView,
    submission_is_directory: bool,
)
    requires
        resolvable(source, submission),
        are_names(submission.components, '/'),
    ensures
        ({
            let workspace = resolution(
                Some(source),
                Some(submission),
                submission_is_directory,
            )->Ok_0;
            let written = joined(workspace.submission_relative, '/');
            match workspace.reference {
                None => workspace.context.join(split(written, '/')) == submission,
                Some(reference) => workspace.context.join(split(written, '/'))
                    == reference.location,
            }
        }),
{
    let workspace = resolution(Some(source), Some(submission), submission_is_directory)->Ok_0;
    let relative = workspace.submission_relative;
    assert(are_names(relative, '/')) by {
        assert forall|i: int| 0 <= i < relative.len() implies is_name(
            #[trigger] relative[i],
            '/',
        ) by {
            if workspace.reference is None {
                assert(relative[i] == submission.components[source.parent().components.len()
                    + i]);
            } else {
                assert(relative[i] == submission.components[submission.components.len() - 1]);
            }
        }
    }
    lemma_split_joined(relative, '/');
    lemma_relative_name_leads_back(source, submission, submission_is_directory);
}

/// A reference is made only for a submission outside the build context: for
/// one that lies inside it, the workspace asks for none.
pub proof fn lemma_reference_only_outside(
    source: PathView,
    submission: PathView,
    submission_is_directory: bool,
)
    requires
        resolvable(source, submission),
    ensures
        resolution(Some(source), Some(submission), submission_is_directory)->Ok_0.reference
            is None <==> submission.is_inside(source.parent()),
{
}

} // verus!
