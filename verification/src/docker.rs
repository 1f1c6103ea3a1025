//! A run of the sandbox, from the two paths that the user names to the
//! result on the screen.
//!
//! The run is a state machine. Whatever touches the world outside (the file
//! system, the sandbox) is done by the caller: [`RunGradescope::update`]
//! takes what happened as a [`Message`] and answers with the [`Command`] to
//! carry out next, whose outcome the caller hands back as the next message.
//!
//! A run passes through the stages in order: resolving the workspace, writing
//! the run specification, running the sandbox, taking in the artifact. It
//! ends with a result on display, with no result, or, if it could not be
//! prepared, aborted before the sandbox was started.

use vstd::prelude::*;
use crate::error::PipelineError;
use crate::gradescope::{GraderResult, GraderResultView};
use crate::ingest::result_of;
use crate::ingest::ingest;
use crate::runspec::{
    build_description_name, description_name, generate, generated, Templates, TemplatesView,
};
use crate::text::joined;
use crate::workspace::{
    path_view, reconcile, reconciled, resolution, resolve, CanonicalPath, Existing, ExistingView, PathView, Reference,
    ReferenceStep, ReferenceView, Workspace, WorkspacePaths, WorkspacePathsView, WorkspaceView,
};

pub mod laws;

verus! {

/// How the sandbox ended.
#[derive(Debug, Clone, Copy, PartialEq, Eq, Structural)]
pub enum RunArtifact {
    /// The process was started and waited for. Its exit status does not
    /// matter.
    Completed,
    /// The process could not be started or waited for.
    Failed,
}

/// Where a run stands.
#[derive(Debug, Clone, Copy, PartialEq, Eq, Structural)]
pub enum Stage {
    /// No run has been asked for.
    Idle,
    Resolving,
    Specifying,
    Running,
    Ingesting,
    /// The run has ended and its result is on display.
    Displayed,
    /// The run has ended without a result.
    NoResult,
    /// The run could not be prepared, and the sandbox was not started.
    Aborted,
}

/// What happened.
#[derive(Debug, Clone, PartialEq)]
pub enum Message {
    /// The user asks for a run.
    RunDocker,
    /// The user has changed the path of the grader source.
    SourcePathChanged(String),
    /// The user has changed the path of the submission.
    SubmissionPathChanged(String),
    /// The paths were looked up: for each the canonical path, or `None` if
    /// there is no such entry, and whether the submission is a directory.
    Resolved {
        source: Option<CanonicalPath>,
        submission: Option<CanonicalPath>,
        submission_is_directory: bool,
    },
    /// The place of the reference was looked at.
    ReferenceInspected(Existing),
    /// The reference was placed, or could not be.
    ReferenceCreated(bool),
    /// The build description was written into the build context.
    BuildDescriptionWritten,
    /// The sandbox has ended.
    RanDocker(RunArtifact),
    /// The artifact was read: its bytes, or `None` if there was no reading
    /// it.
    ArtifactRead(Option<Vec<u8>>),
    /// The artifact was removed, or could not be.
    ArtifactRemoved(bool),
    /// Something happened in the display of the result.
    ResultMessage(crate::results::Message),
}

/// What the caller is to do next.
#[derive(Debug, Clone, PartialEq)]
pub enum Command {
    /// Nothing.
    Nothing,
    /// Look up the two paths, and answer with [`Message::Resolved`].
    Canonicalize(WorkspacePaths),
    /// Look at what lies at the given place, and answer with
    /// [`Message::ReferenceInspected`].
    InspectReference(CanonicalPath),
    /// Place the reference, and answer with [`Message::ReferenceCreated`].
    CreateReference(Reference),
    /// Write the text to the given place, over what may be there, and answer
    /// with [`Message::BuildDescriptionWritten`].
    WriteBuildDescription { location: CanonicalPath, text: String },
    /// Run a shell with the script as its one argument, wait for it, and
    /// answer with [`Message::RanDocker`].
    RunSandbox { script: String },
    /// Read the artifact, and answer with [`Message::ArtifactRead`].
    ReadArtifact,
    /// Remove the artifact, and answer with [`Message::ArtifactRemoved`].
    RemoveArtifact,
}

/// What a run waits for.
#[derive(Debug, Clone, PartialEq)]
enum Progress {
    Idle,
    AwaitingPaths,
    AwaitingInspection(Workspace),
    AwaitingReference(Workspace),
    AwaitingDescription { script: String },
    AwaitingSandbox,
    AwaitingArtifact,
    AwaitingCleanup,
    Displayed,
    NoResult,
    Aborted,
}

/// What a [`Message`] holds.
pub ghost enum MessageView {
    RunDocker,
    SourcePathChanged(Seq<char>),
    SubmissionPathChanged(Seq<char>),
    Resolved { source: Option<PathView>, submission: Option<PathView>, submission_is_directory: bool },
    ReferenceInspected(ExistingView),
    ReferenceCreated(bool),
    BuildDescriptionWritten,
    RanDocker(RunArtifact),
    ArtifactRead(Option<Seq<u8>>),
    ArtifactRemoved(bool),
    ResultMessage,
}

/// What a [`Command`] holds.
pub ghost enum CommandView {
    Nothing,
    Canonicalize(WorkspacePathsView),
    InspectReference(PathView),
    CreateReference(ReferenceView),
    WriteBuildDescription { location: PathView, text: Seq<char> },
    RunSandbox { script: Seq<char> },
    ReadArtifact,
    RemoveArtifact,
}

/// What a run waits for.
pub ghost enum ProgressView {
    /// A request for a run; none has been made yet.
    Idle,
    /// [`Message::Resolved`].
    AwaitingPaths,
    /// [`Message::ReferenceInspected`].
    AwaitingInspection(WorkspaceView),
    /// [`Message::ReferenceCreated`].
    AwaitingReference(WorkspaceView),
    /// [`Message::BuildDescriptionWritten`]; the launch script is kept for
    /// the sandbox.
    AwaitingDescription { script: Seq<char> },
    /// [`Message::RanDocker`].
    AwaitingSandbox,
    /// [`Message::ArtifactRead`].
    AwaitingArtifact,
    /// [`Message::ArtifactRemoved`].
    AwaitingCleanup,
    /// A request for another run; the last has left a result.
    Displayed,
    /// A request for another run; the last has left no result.
    NoResult,
    /// A request for another run; the last was aborted.
    Aborted,
}

/// The state of a run.
pub ghost struct StateView {
    /// The path of the grader source, as typed.
    pub source_path: Seq<char>,
    /// The path of the submission, as typed.
    pub submission_path: Seq<char>,
    pub templates: TemplatesView,
    /// The result of the run.
    pub result: Option<GraderResultView>,
    /// What went wrong in the run, if anything.
    pub issue: Option<PipelineError>,
    pub progress: ProgressView,
}

impl View for Message {
    type V = MessageView;

    open spec fn view(&self) -> MessageView {
        match self {
            Message::RunDocker => MessageView::RunDocker,
            Message::SourcePathChanged(path) => MessageView::SourcePathChanged(path@),
            Message::SubmissionPathChanged(path) => MessageView::SubmissionPathChanged(path@),
            Message::Resolved { source, submission, submission_is_directory } => {
                MessageView::Resolved {
                    source: path_view(*source),
                    submission: path_view(*submission),
                    submission_is_directory: *submission_is_directory,
                }
            },
            Message::ReferenceInspected(existing) => MessageView::ReferenceInspected(existing@),
            Message::ReferenceCreated(created) => MessageView::ReferenceCreated(*created),
            Message::BuildDescriptionWritten => MessageView::BuildDescriptionWritten,
            Message::RanDocker(artifact) => MessageView::RanDocker(*artifact),
            Message::ArtifactRead(content) => MessageView::ArtifactRead(
                match content {
                    Some(bytes) => Some(bytes@),
                    None => None,
                },
            ),
            Message::ArtifactRemoved(removed) => MessageView::ArtifactRemoved(*removed),
            Message::ResultMessage(_) => MessageView::ResultMessage,
        }
    }
}

impl View for Command {
    type V = CommandView;

    open spec fn view(&self) -> CommandView {
        match self {
            Command::Nothing => CommandView::Nothing,
            Command::Canonicalize(paths) => CommandView::Canonicalize(paths@),
            Command::InspectReference(location) => CommandView::InspectReference(location@),
            Command::CreateReference(reference) => CommandView::CreateReference(reference@),
            Command::WriteBuildDescription { location, text } => {
                CommandView::WriteBuildDescription { location: location@, text: text@ }
            },
            Command::RunSandbox { script } => CommandView::RunSandbox { script: script@ },
            Command::ReadArtifact => CommandView::ReadArtifact,
            Command::RemoveArtifact => CommandView::RemoveArtifact,
        }
    }
}

impl View for Progress {
    type V = ProgressView;

    closed spec fn view(&self) -> ProgressView {
        match self {
            Progress::Idle => ProgressView::Idle,
            Progress::AwaitingPaths => ProgressView::AwaitingPaths,
            Progress::AwaitingInspection(workspace) => ProgressView::AwaitingInspection(
                workspace@,
            ),
            Progress::AwaitingReference(workspace) => ProgressView::AwaitingReference(workspace@),
            Progress::AwaitingDescription { script } => ProgressView::AwaitingDescription {
                script: script@,
            },
            Progress::AwaitingSandbox => ProgressView::AwaitingSandbox,
            Progress::AwaitingArtifact => ProgressView::AwaitingArtifact,
            Progress::AwaitingCleanup => ProgressView::AwaitingCleanup,
            Progress::Displayed => ProgressView::Displayed,
            Progress::NoResult => ProgressView::NoResult,
            Progress::Aborted => ProgressView::Aborted,
        }
    }
}

impl ProgressView {
    /// The stage of the run.
    pub open spec fn stage(self) -> Stage {
        match self {
            ProgressView::Idle => Stage::Idle,
            ProgressView::AwaitingPaths => Stage::Resolving,
            ProgressView::AwaitingInspection(_) => Stage::Resolving,
            ProgressView::AwaitingReference(_) => Stage::Resolving,
            ProgressView::AwaitingDescription { .. } => Stage::Specifying,
            ProgressView::AwaitingSandbox => Stage::Running,
            ProgressView::AwaitingArtifact => Stage::Ingesting,
            ProgressView::AwaitingCleanup => Stage::Ingesting,
            ProgressView::Displayed => Stage::Displayed,
            ProgressView::NoResult => Stage::NoResult,
            ProgressView::Aborted => Stage::Aborted,
        }
    }
}

impl Stage {
    /// Whether a run is under way: it has been asked for and has not ended.
    pub open spec fn in_flight(self) -> bool {
        self == Stage::Resolving || self == Stage::Specifying || self == Stage::Running || self
            == Stage::Ingesting
    }
}

/// The run is aborted.
pub open spec fn abort(state: StateView, error: PipelineError) -> (StateView, CommandView) {
    (
        StateView { issue: Some(error), progress: ProgressView::Aborted, ..state },
        CommandView::Nothing,
    )
}

/// The workspace is ready: the run specification is rendered, and the build
/// description is to be written into the build context.
pub open spec fn specify(state: StateView, workspace: WorkspaceView) -> (StateView, CommandView) {
    match generated(
        state.templates,
        workspace.source_file_name,
        joined(workspace.submission_relative, '/'),
    ) {
        Some(spec) => (
            StateView {
                progress: ProgressView::AwaitingDescription { script: spec.launch_script },
                ..state
            },
            CommandView::WriteBuildDescription {
                location: workspace.context.join(seq![description_name()]),
                text: spec.build_description,
            },
        ),
        None => abort(state, PipelineError::TemplateRenderError),
    }
}

/// The user asks for a run. While a run is under way the request is
/// refused. Otherwise the result of the last run is taken from the display,
/// and the paths are looked up as they are typed now.
pub open spec fn on_run_requested(state: StateView) -> (StateView, CommandView) {
    if state.progress.stage().in_flight() {
        (state, CommandView::Nothing)
    } else {
        (
            StateView {
                result: None,
                issue: None,
                progress: ProgressView::AwaitingPaths,
                ..state
            },
            CommandView::Canonicalize(
                WorkspacePathsView {
                    source_path: state.source_path,
                    submission_path: state.submission_path,
                },
            ),
        )
    }
}

/// The paths were looked up. Without a workspace the run is aborted. With a
/// workspace that needs a reference, the place of the reference is looked at
/// first.
pub open spec fn on_resolved(
    state: StateView,
    source: Option<PathView>,
    submission: Option<PathView>,
    submission_is_directory: bool,
) -> (StateView, CommandView) {
    if state.progress is AwaitingPaths {
        match resolution(source, submission, submission_is_directory) {
            Ok(workspace) => match workspace.reference {
                Some(reference) => (
                    StateView { progress: ProgressView::AwaitingInspection(workspace), ..state },
                    CommandView::InspectReference(reference.location),
                ),
                None => specify(state, workspace),
            },
            Err(error) => abort(state, error),
        }
    } else {
        (state, CommandView::Nothing)
    }
}

/// The place of the reference was looked at.
pub open spec fn on_reference_inspected(state: StateView, existing: ExistingView) -> (
    StateView,
    CommandView,
) {
    match state.progress {
        ProgressView::AwaitingInspection(workspace) => match workspace.reference {
            Some(reference) => match reconciled(reference, existing) {
                Ok(ReferenceStep::Create) => (
                    StateView { progress: ProgressView::AwaitingReference(workspace), ..state },
                    CommandView::CreateReference(reference),
                ),
                Ok(ReferenceStep::Reuse) => specify(state, workspace),
                Err(error) => abort(state, error),
            },
            None => specify(state, workspace),
        },
        _ => (state, CommandView::Nothing),
    }
}

/// The reference was placed, or could not be.
pub open spec fn on_reference_created(state: StateView, created: bool) -> (
    StateView,
    CommandView,
) {
    match state.progress {
        ProgressView::AwaitingReference(workspace) => if created {
            specify(state, workspace)
        } else {
            abort(state, PipelineError::ReferenceCreationFailed)
        },
        _ => (state, CommandView::Nothing),
    }
}

/// The build description was written: the sandbox is started.
pub open spec fn on_description_written(state: StateView) -> (StateView, CommandView) {
    match state.progress {
        ProgressView::AwaitingDescription { script } => (
            StateView { progress: ProgressView::AwaitingSandbox, ..state },
            CommandView::RunSandbox { script },
        ),
        _ => (state, CommandView::Nothing),
    }
}

/// The sandbox has ended. If it ran, the artifact is read. If it did not,
/// there is no result, and nothing is read; what may lie in the place of the
/// artifact is removed.
pub open spec fn on_sandbox_ended(state: StateView, artifact: RunArtifact) -> (
    StateView,
    CommandView,
) {
    if state.progress is AwaitingSandbox {
        match artifact {
            RunArtifact::Completed => (
                StateView { progress: ProgressView::AwaitingArtifact, ..state },
                CommandView::ReadArtifact,
            ),
            RunArtifact::Failed => (
                StateView {
                    issue: Some(PipelineError::SandboxLaunchFailed),
                    progress: ProgressView::AwaitingCleanup,
                    ..state
                },
                CommandView::RemoveArtifact,
            ),
        }
    } else {
        (state, CommandView::Nothing)
    }
}

/// The artifact was read, or could not be. Whatever it holds, it is removed
/// next.
pub open spec fn on_artifact_read(state: StateView, content: Option<Seq<u8>>) -> (
    StateView,
    CommandView,
) {
    if state.progress is AwaitingArtifact {
        let taken = StateView { progress: ProgressView::AwaitingCleanup, ..state };
        match content {
            Some(bytes) => match result_of(bytes) {
                Some(result) => (
                    StateView { result: Some(result), ..taken },
                    CommandView::RemoveArtifact,
                ),
                None => (
                    StateView { issue: Some(PipelineError::ArtifactMalformed), ..taken },
                    CommandView::RemoveArtifact,
                ),
            },
            None => (
                StateView { issue: Some(PipelineError::ArtifactUnreadable), ..taken },
                CommandView::RemoveArtifact,
            ),
        }
    } else {
        (state, CommandView::Nothing)
    }
}

/// The artifact was removed, or could not be: the run has ended. A result
/// that was read goes on display; that its artifact is still there is
/// recorded and changes nothing else.
pub open spec fn on_artifact_removed(state: StateView, removed: bool) -> (
    StateView,
    CommandView,
) {
    if state.progress is AwaitingCleanup {
        if state.result is Some {
            (
                StateView {
                    issue: if removed {
                        None
                    } else {
                        Some(PipelineError::ArtifactCleanupFailed)
                    },
                    progress: ProgressView::Displayed,
                    ..state
                },
                CommandView::Nothing,
            )
        } else {
            (StateView { progress: ProgressView::NoResult, ..state }, CommandView::Nothing)
        }
    } else {
        (state, CommandView::Nothing)
    }
}

/// The state after a message, and the command that answers it.
///
/// A message that the run does not wait for changes nothing and is answered
/// with [`Command::Nothing`].
pub open spec fn step(state: StateView, message: MessageView) -> (StateView, CommandView) {
    match message {
        MessageView::RunDocker => on_run_requested(state),
        MessageView::SourcePathChanged(path) => (
            StateView { source_path: path, ..state },
            CommandView::Nothing,
        ),
        MessageView::SubmissionPathChanged(path) => (
            StateView { submission_path: path, ..state },
            CommandView::Nothing,
        ),
        MessageView::Resolved { source, submission, submission_is_directory } => on_resolved(
            state,
            source,
            submission,
            submission_is_directory,
        ),
        MessageView::ReferenceInspected(existing) => on_reference_inspected(state, existing),
        MessageView::ReferenceCreated(created) => on_reference_created(state, created),
        MessageView::BuildDescriptionWritten => on_description_written(state),
        MessageView::RanDocker(artifact) => on_sandbox_ended(state, artifact),
        MessageView::ArtifactRead(content) => on_artifact_read(state, content),
        MessageView::ArtifactRemoved(removed) => on_artifact_removed(state, removed),
        MessageView::ResultMessage => (state, CommandView::Nothing),
    }
}


/// The state before the first run: nothing typed, nothing on display.
pub open spec fn initial(templates: TemplatesView) -> StateView {
    StateView {
        source_path: Seq::<char>::empty(),
        submission_path: Seq::<char>::empty(),
        templates,
        result: None,
        issue: None,
        progress: ProgressView::Idle,
    }
}

/// A run of the sandbox, and what the user has typed for it.
#[derive(Debug, Clone, PartialEq)]
pub struct RunGradescope {
    source_path: String,
    submission_path: String,
    templates: Templates,
    grader_result: Option<GraderResult>,
    issue: Option<PipelineError>,
    progress: Progress,
}

impl View for RunGradescope {
    type V = StateView;

    closed spec fn view(&self) -> StateView {
        StateView {
            source_path: self.source_path@,
            submission_path: self.submission_path@,
            templates: self.templates@,
            result: match self.grader_result {
                Some(result) => Some(result@),
                None => None,
            },
            issue: self.issue,
            progress: self.progress@,
        }
    }
}

impl RunGradescope {
    /// The state before the first run, with the templates that its runs are
    /// to use.
    pub fn new(templates: Templates) -> (run: RunGradescope)
        ensures
            run@ == initial(templates@),
    {
        RunGradescope {
            source_path: String::new(),
            submission_path: String::new(),
            templates,
            grader_result: None,
            issue: None,
            progress: Progress::Idle,
        }
    }

    /// The path of the grader source, as typed.
    pub fn source_path(&self) -> (path: &String)
        ensures
            path@ == self@.source_path,
    {
        &self.source_path
    }

    /// The path of the submission, as typed.
    pub fn submission_path(&self) -> (path: &String)
        ensures
            path@ == self@.submission_path,
    {
        &self.submission_path
    }

    /// The result of the run, if it has left one.
    pub fn grader_result(&self) -> (result: Option<&GraderResult>)
        ensures
            match result {
                Some(result) => self@.result == Some(result@),
                None => self@.result is None,
            },
    {
        self.grader_result.as_ref()
    }

    /// What went wrong in the run, if anything.
    pub fn issue(&self) -> (issue: Option<PipelineError>)
        ensures
            issue == self@.issue,
    {
        self.issue
    }

    /// The stage of the run.
    pub fn stage(&self) -> (stage: Stage)
        ensures
            stage == self@.progress.stage(),
    {
        match &self.progress {
            Progress::Idle => Stage::Idle,
            Progress::AwaitingPaths => Stage::Resolving,
            Progress::AwaitingInspection(_) => Stage::Resolving,
            Progress::AwaitingReference(_) => Stage::Resolving,
            Progress::AwaitingDescription { .. } => Stage::Specifying,
            Progress::AwaitingSandbox => Stage::Running,
            Progress::AwaitingArtifact => Stage::Ingesting,
            Progress::AwaitingCleanup => Stage::Ingesting,
            Progress::Displayed => Stage::Displayed,
            Progress::NoResult => Stage::NoResult,
            Progress::Aborted => Stage::Aborted,
        }
    }

    /// Takes in what happened, and answers with what the caller is to do
    /// next.
    pub fn update(&mut self, message: Message) -> (command: Command)
        ensures
            (final(self)@, command@) == step(old(self)@, message@),
    {
        match message {
            Message::RunDocker => self.run_requested(),
            Message::SourcePathChanged(path) => {
                self.source_path = path;
                Command::Nothing
            },
            Message::SubmissionPathChanged(path) => {
                self.submission_path = path;
                Command::Nothing
            },
            Message::Resolved { source, submission, submission_is_directory } => self.resolved(
                source,
                submission,
                submission_is_directory,
            ),
            Message::ReferenceInspected(existing) => self.reference_inspected(existing),
            Message::ReferenceCreated(created) => self.reference_created(created),
            Message::BuildDescriptionWritten => self.description_written(),
            Message::RanDocker(artifact) => self.sandbox_ended(artifact),
            Message::ArtifactRead(content) => self.artifact_read(content),
            Message::ArtifactRemoved(removed) => self.artifact_removed(removed),
            Message::ResultMessage(_) => Command::Nothing,
        }
    }

    /// Takes the progress out of the state, leaving [`Progress::Idle`].
    fn take_progress(&mut self) -> (progress: Progress)
        ensures
            progress == old(self).progress,
            final(self)@ == (StateView { progress: ProgressView::Idle, ..old(self)@ }),
    {
        let mut progress = Progress::Idle;
        std::mem::swap(&mut self.progress, &mut progress);
        progress
    }

    fn abort(&mut self, error: PipelineError) -> (command: Command)
        ensures
            (final(self)@, command@) == abort(old(self)@, error),
    {
        self.issue = Some(error);
        self.progress = Progress::Aborted;
        Command::Nothing
    }

    fn specify(&mut self, workspace: Workspace) -> (command: Command)
        ensures
            (final(self)@, command@) == specify(old(self)@, workspace@),
    {
        let name = workspace.submission_relative_name();
        match generate(&self.templates, &workspace.source_file_name, &name) {
            Ok(spec) => {
                let location = workspace.context.directory.child(&build_description_name());
                self.progress = Progress::AwaitingDescription { script: spec.launch_script };
                Command::WriteBuildDescription { location, text: spec.build_description }
            },
            Err(_) => self.abort(PipelineError::TemplateRenderError),
        }
    }

    fn run_requested(&mut self) -> (command: Command)
        ensures
            (final(self)@, command@) == on_run_requested(old(self)@),
    {
        if in_flight(self.stage()) {
            return Command::Nothing;
        }
        self.grader_result = None;
        self.issue = None;
        self.progress = Progress::AwaitingPaths;
        Command::Canonicalize(
            WorkspacePaths {
                source_path: self.source_path.clone(),
                submission_path: self.submission_path.clone(),
            },
        )
    }

    fn resolved(
        &mut self,
        source: Option<CanonicalPath>,
        submission: Option<CanonicalPath>,
        submission_is_directory: bool,
    ) -> (command: Command)
        ensures
            (final(self)@, command@) == on_resolved(
                old(self)@,
                path_view(source),
                path_view(submission),
                submission_is_directory,
            ),
    {
        match self.take_progress() {
            Progress::AwaitingPaths => match resolve(source, submission, submission_is_directory) {
                Ok(workspace) => {
                    let location = match &workspace.reference {
                        Some(reference) => Some(reference.location.duplicate()),
                        None => None,
                    };
                    match location {
                        Some(location) => {
                            self.progress = Progress::AwaitingInspection(workspace);
                            Command::InspectReference(location)
                        },
                        None => self.specify(workspace),
                    }
                },
                Err(error) => self.abort(error),
            },
            other => {
                self.progress = other;
                Command::Nothing
            },
        }
    }

    fn reference_inspected(&mut self, existing: Existing) -> (command: Command)
        ensures
            (final(self)@, command@) == on_reference_inspected(old(self)@, existing@),
    {
        match self.take_progress() {
            Progress::AwaitingInspection(workspace) => {
                let decision = match &workspace.reference {
                    Some(reference) => match reconcile(reference, &existing) {
                        Ok(ReferenceStep::Create) => Ok(Some(reference.duplicate())),
                        Ok(ReferenceStep::Reuse) => Ok(None),
                        Err(error) => Err(error),
                    },
                    None => Ok(None),
                };
                match decision {
                    Ok(Some(reference)) => {
                        self.progress = Progress::AwaitingReference(workspace);
                        Command::CreateReference(reference)
                    },
                    Ok(None) => self.specify(workspace),
                    Err(error) => self.abort(error),
                }
            },
            other => {
                self.progress = other;
                Command::Nothing
            },
        }
    }

    fn reference_created(&mut self, created: bool) -> (command: Command)
        ensures
            (final(self)@, command@) == on_reference_created(old(self)@, created),
    {
        match self.take_progress() {
            Progress::AwaitingReference(workspace) => if created {
                self.specify(workspace)
            } else {
                self.abort(PipelineError::ReferenceCreationFailed)
            },
            other => {
                self.progress = other;
                Command::Nothing
            },
        }
    }

    fn description_written(&mut self) -> (command: Command)
        ensures
            (final(self)@, command@) == on_description_written(old(self)@),
    {
        match self.take_progress() {
            Progress::AwaitingDescription { script } => {
                self.progress = Progress::AwaitingSandbox;
                Command::RunSandbox { script }
            },
            other => {
                self.progress = other;
                Command::Nothing
            },
        }
    }

    fn sandbox_ended(&mut self, artifact: RunArtifact) -> (command: Command)
        ensures
            (final(self)@, command@) == on_sandbox_ended(old(self)@, artifact),
    {
        match &self.progress {
            Progress::AwaitingSandbox => match artifact {
                RunArtifact::Completed => {
                    self.progress = Progress::AwaitingArtifact;
                    Command::ReadArtifact
                },
                RunArtifact::Failed => {
                    self.issue = Some(PipelineError::SandboxLaunchFailed);
                    self.progress = Progress::AwaitingCleanup;
                    Command::RemoveArtifact
                },
            },
            _ => Command::Nothing,
        }
    }

    fn artifact_read(&mut self, content: Option<Vec<u8>>) -> (command: Command)
        ensures
            (final(self)@, command@) == on_artifact_read(
                old(self)@,
                match content {
                    Some(bytes) => Some(bytes@),
                    None => None,
                },
            ),
    {
        match &self.progress {
            Progress::AwaitingArtifact => {
                let taken = match &content {
                    Some(bytes) => ingest(Some(bytes.as_slice())),
                    None => ingest(None),
                };
                match taken {
                    Ok(result) => {
                        self.grader_result = Some(result);
                    },
                    Err(error) => {
                        self.issue = Some(error);
                    },
                }
                self.progress = Progress::AwaitingCleanup;
                Command::RemoveArtifact
            },
            _ => Command::Nothing,
        }
    }

    fn artifact_removed(&mut self, removed: bool) -> (command: Command)
        ensures
            (final(self)@, command@) == on_artifact_removed(old(self)@, removed),
    {
        match &self.progress {
            Progress::AwaitingCleanup => {
                if self.grader_result.is_some() {
                    self.issue = if removed {
                        None
                    } else {
                        Some(PipelineError::ArtifactCleanupFailed)
                    };
                    self.progress = Progress::Displayed;
                } else {
                    self.progress = Progress::NoResult;
                }
                Command::Nothing
            },
            _ => Command::Nothing,
        }
    }
}

/// Whether a run is under way at the given stage.
pub fn in_flight(stage: Stage) -> (r: bool)
    ensures
        r == stage.in_flight(),
{
    match stage {
        Stage::Resolving | Stage::Specifying | Stage::Running | Stage::Ingesting => true,
        _ => false,
    }
}

} // verus!
