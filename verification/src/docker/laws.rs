//! What holds of every run.
//!
//! Each law here is proved of [`step`], the function that says what
//! [`RunGradescope::update`](super::RunGradescope::update) does.

use vstd::prelude::*;
use crate::docker::{initial, step, CommandView, MessageView, ProgressView, RunArtifact, Stage, StateView};
use crate::error::PipelineError;
use crate::ingest::result_of;
use crate::json::json_object;
use crate::workspace::PathView;

verus! {

impl StateView {
    /// What holds of the state of a run, whatever has happened.
    ///
    /// A result is held only once a run has read it, and is on display
    /// exactly when the run that read it has ended. A run under way has met
    /// no error before its artifact is taken in; a run that has ended holds
    /// the error that ended it.
    pub open spec fn well_formed(self) -> bool {
        match self.progress {
            ProgressView::Idle => self.result is None && self.issue is None,
            ProgressView::AwaitingPaths => self.result is None && self.issue is None,
            ProgressView::AwaitingInspection(workspace) => self.result is None && self.issue
                is None && workspace.reference is Some,
            ProgressView::AwaitingReference(workspace) => self.result is None && self.issue
                is None && workspace.reference is Some,
            ProgressView::AwaitingDescription { .. } => self.result is None && self.issue
                is None,
            ProgressView::AwaitingSandbox => self.result is None && self.issue is None,
            ProgressView::AwaitingArtifact => self.result is None && self.issue is None,
            ProgressView::AwaitingCleanup => match self.issue {
                Some(error) => self.result is None && error.leaves_no_result(),
                None => self.result is Some,
            },
            ProgressView::Displayed => self.result is Some && (self.issue is None || self.issue
                == Some(PipelineError::ArtifactCleanupFailed)),
            ProgressView::NoResult => self.result is None && (self.issue matches Some(error)
                && error.leaves_no_result()),
            ProgressView::Aborted => self.result is None && (self.issue matches Some(error)
                && error.aborts()),
        }
    }
}

/// Every state that a run reaches is well formed: the first state is, and
/// each message leads from a well-formed state to a well-formed state.
pub proof fn lemma_step_keeps_well_formed(state: StateView, message: MessageView)
    requires
        state.well_formed(),
    ensures
        initial(state.templates).well_formed(),
        step(state, message).0.well_formed(),
{
}

/// While a run is under way, a request for another run is refused: it
/// changes nothing and needs nothing done.
pub proof fn lemma_one_run_at_a_time(state: StateView)
    requires
        state.progress.stage().in_flight(),
    ensures
        step(state, MessageView::RunDocker) == (state, CommandView::Nothing),
{
}

/// A run that is accepted starts with nothing on display: no result of an
/// earlier run, and no error.
pub proof fn lemma_new_run_shows_nothing_stale(state: StateView)
    requires
        !state.progress.stage().in_flight(),
    ensures
        step(state, MessageView::RunDocker).0.result is None,
        step(state, MessageView::RunDocker).0.issue is None,
        step(state, MessageView::RunDocker).0.progress.stage() == Stage::Resolving,
{
}

/// A run that has ended stays as it ended until the user asks for another:
/// no other message moves it or has anything done. In particular a run that
/// was aborted never starts the sandbox.
pub proof fn lemma_ended_run_stays(state: StateView, message: MessageView)
    requires
        !state.progress.stage().in_flight(),
        message !is RunDocker,
    ensures
        step(state, message).0.progress == state.progress,
        step(state, message).0.result == state.result,
        step(state, message).0.issue == state.issue,
        step(state, message).1 == CommandView::Nothing,
{
}

/// The stages of a run follow each other in order: a message leaves the
/// stage as it is, moves it to the next stage, or ends the run. A run ends
/// in an abort only before the sandbox is started, and with or without a
/// result only after it.
pub proof fn lemma_stages_in_order(state: StateView, message: MessageView)
    requires
        state.well_formed(),
        state.progress.stage().in_flight(),
    ensures
        ({
            let before = state.progress.stage();
            let after = step(state, message).0.progress.stage();
            match before {
                Stage::Resolving => after == Stage::Resolving || after == Stage::Specifying
                    || after == Stage::Aborted,
                Stage::Specifying => after == Stage::Specifying || after == Stage::Running,
                Stage::Running => after == Stage::Running || after == Stage::Ingesting,
                _ => after == Stage::Ingesting || after == Stage::Displayed || after
                    == Stage::NoResult,
            }
        }),
        step(state, message).1 is RunSandbox ==> state.progress.stage() == Stage::Specifying,
{
}

/// If the sandbox could not be started, the run ends without a result, and
/// the artifact is never read.
pub proof fn lemma_failed_launch_reads_nothing(state: StateView, removed: bool)
    requires
        state.well_formed(),
        state.progress is AwaitingSandbox,
    ensures
        ({
            let (failed, first) = step(state, MessageView::RanDocker(RunArtifact::Failed));
            let (ended, second) = step(failed, MessageView::ArtifactRemoved(removed));
            &&& first == CommandView::RemoveArtifact
            &&& second == CommandView::Nothing
            &&& ended.progress.stage() == Stage::NoResult
            &&& ended.result is None
            &&& ended.issue == Some(PipelineError::SandboxLaunchFailed)
        }),
{
}

/// If the sandbox ran and left no artifact that can be read, the run ends
/// without a result. This is no abort: the user sees that there is no
/// result, and the error is only recorded.
pub proof fn lemma_missing_artifact_is_no_result(state: StateView, removed: bool)
    requires
        state.well_formed(),
        state.progress is AwaitingArtifact,
    ensures
        ({
            let (read, first) = step(state, MessageView::ArtifactRead(None));
            let (ended, second) = step(read, MessageView::ArtifactRemoved(removed));
            &&& first == CommandView::RemoveArtifact
            &&& second == CommandView::Nothing
            &&& ended.progress.stage() == Stage::NoResult
            &&& ended.result is None
            &&& ended.issue == Some(PipelineError::ArtifactUnreadable)
        }),
{
}

/// If the artifact holds no result, as when it is not the text of a JSON
/// object, the run ends without a result, and the artifact is removed all
/// the same.
pub proof fn lemma_malformed_artifact_is_removed(state: StateView, bytes: Seq<u8>, removed: bool)
    requires
        state.well_formed(),
        state.progress is AwaitingArtifact,
        result_of(bytes) is None,
    ensures
        ({
            let (read, first) = step(state, MessageView::ArtifactRead(Some(bytes)));
            let (ended, second) = step(read, MessageView::ArtifactRemoved(removed));
            &&& first == CommandView::RemoveArtifact
            &&& second == CommandView::Nothing
            &&& ended.progress.stage() == Stage::NoResult
            &&& ended.result is None
            &&& ended.issue == Some(PipelineError::ArtifactMalformed)
        }),
{
}

/// An artifact that is not the text of one JSON object holds no result.
pub proof fn lemma_invalid_text_holds_no_result(bytes: Seq<u8>)
    requires
        json_object(bytes) is None,
    ensures
        result_of(bytes) is None,
{
}

/// If the artifact holds a result, the run ends with that result on
/// display, whether or not the artifact could then be removed.
pub proof fn lemma_result_goes_on_display(state: StateView, bytes: Seq<u8>, removed: bool)
    requires
        state.well_formed(),
        state.progress is AwaitingArtifact,
        result_of(bytes) is Some,
    ensures
        ({
            let (read, first) = step(state, MessageView::ArtifactRead(Some(bytes)));
            let (ended, second) = step(read, MessageView::ArtifactRemoved(removed));
            &&& first == CommandView::RemoveArtifact
            &&& second == CommandView::Nothing
            &&& ended.progress.stage() == Stage::Displayed
            &&& ended.result == result_of(bytes)
            &&& ended.issue == if removed {
                None
            } else {
                Some(PipelineError::ArtifactCleanupFailed)
            }
        }),
{
}

/// For a submission that lies in the build context no reference is looked
/// for or placed: the run goes on to its specification at once.
pub proof fn lemma_submission_inside_needs_no_reference(
    state: StateView,
    source: PathView,
    submission: PathView,
    submission_is_directory: bool,
)
    requires
        state.progress is AwaitingPaths,
        source.components.len() > 0,
        submission.is_inside(source.parent()),
    ensures
        ({
            let (next, command) = step(
                state,
                MessageView::Resolved {
                    source: Some(source),
                    submission: Some(submission),
                    submission_is_directory,
                },
            );
            &&& command !is InspectReference
            &&& command !is CreateReference
            &&& next.progress.stage() == Stage::Specifying || next.issue == Some(
                PipelineError::TemplateRenderError,
            )
        }),
{
}

/// A path that does not exist, and a reference that cannot be placed, abort
/// the run, and the error is there for the user to see.
pub proof fn lemma_unprepared_run_is_aborted(state: StateView, message: MessageView)
    requires
        state.well_formed(),
        match message {
            MessageView::Resolved { source, submission, .. } => state.progress is AwaitingPaths
                && (source is None || submission is None),
            MessageView::ReferenceCreated(created) => state.progress is AwaitingReference
                && !created,
            MessageView::ReferenceInspected(existing) => state.progress is AwaitingInspection
                && existing is Other,
            _ => false,
        },
    ensures
        step(state, message).0.progress.stage() == Stage::Aborted,
        step(state, message).1 == CommandView::Nothing,
        step(state, message).0.issue == Some(
            if message is Resolved {
                PipelineError::PathNotFound
            } else {
                PipelineError::ReferenceCreationFailed
            },
        ),
{
}

} // verus!
