use gradescope_local::docker::{in_flight, Command, Message, RunArtifact, RunGradescope, Stage};
use gradescope_local::error::PipelineError;
use gradescope_local::results::Visualizer;
use gradescope_local::runspec::Templates;
use gradescope_local::workspace::{CanonicalPath, Existing, Reference, WorkspacePaths};

const ARTIFACT: &[u8] = br#"{"score":9.5,"tests":[{"number":"1","name":"t1","score":9.5,"max_score":10,"output":"ok"}]}"#;

fn templates() -> Templates {
    Templates {
        build_description: String::from("ADD {} /autograder/\nCOPY {} /autograder/submission\n"),
        launch_script: String::from("docker build -t local . && docker run local # {0} {1}"),
    }
}

fn path(names: &[&str]) -> CanonicalPath {
    CanonicalPath {
        anchor: String::from("/"),
        components: names.iter().map(|name| String::from(*name)).collect(),
    }
}

fn typed() -> RunGradescope {
    let mut run = RunGradescope::new(templates());
    assert_eq!(
        run.update(Message::SourcePathChanged(String::from("./autograder.zip"))),
        Command::Nothing
    );
    assert_eq!(
        run.update(Message::SubmissionPathChanged(String::from("./sub/"))),
        Command::Nothing
    );
    run
}

fn resolved_inside() -> Message {
    Message::Resolved {
        source: Some(path(&["work", "autograder.zip"])),
        submission: Some(path(&["work", "sub"])),
        submission_is_directory: true,
    }
}

fn resolved_outside() -> Message {
    Message::Resolved {
        source: Some(path(&["work", "autograder.zip"])),
        submission: Some(path(&["tmp", "sub"])),
        submission_is_directory: true,
    }
}

fn reference() -> Reference {
    Reference { target: path(&["tmp", "sub"]), location: path(&["work", "sub"]), directory: true }
}

fn write_command(submission: &str) -> Command {
    Command::WriteBuildDescription {
        location: path(&["work", "Dockerfile"]),
        text: format!("ADD autograder.zip /autograder/\nCOPY {} /autograder/submission\n", submission),
    }
}

fn running() -> RunGradescope {
    let mut run = typed();
    run.update(Message::RunDocker);
    run.update(resolved_inside());
    run.update(Message::BuildDescriptionWritten);
    assert_eq!(run.stage(), Stage::Running);
    run
}

#[test]
fn run_with_an_artifact_ends_with_its_result_on_display() {
    let mut run = typed();
    assert_eq!(run.stage(), Stage::Idle);
    assert_eq!(
        run.update(Message::RunDocker),
        Command::Canonicalize(WorkspacePaths {
            source_path: String::from("./autograder.zip"),
            submission_path: String::from("./sub/"),
        })
    );
    assert_eq!(run.stage(), Stage::Resolving);
    assert_eq!(run.update(resolved_inside()), write_command("sub"));
    assert_eq!(run.stage(), Stage::Specifying);
    assert_eq!(
        run.update(Message::BuildDescriptionWritten),
        Command::RunSandbox {
            script: String::from("docker build -t local . && docker run local # autograder.zip sub"),
        }
    );
    assert_eq!(run.stage(), Stage::Running);
    assert_eq!(run.update(Message::RanDocker(RunArtifact::Completed)), Command::ReadArtifact);
    assert_eq!(run.stage(), Stage::Ingesting);
    assert_eq!(run.update(Message::ArtifactRead(Some(ARTIFACT.to_vec()))), Command::RemoveArtifact);
    assert_eq!(run.stage(), Stage::Ingesting);
    assert_eq!(run.update(Message::ArtifactRemoved(true)), Command::Nothing);
    assert_eq!(run.stage(), Stage::Displayed);
    assert_eq!(run.issue(), None);
    let result = run.grader_result().expect("a result");
    assert_eq!(result.headline_score().render(), "9.5");
    let report = Visualizer::view_result(result);
    assert_eq!(report.score, "9.5");
    let rows = report.tests.expect("rows");
    assert_eq!(rows.len(), 1);
    assert_eq!(rows[0].header, "1) t1 (9.5 / 10)");
    assert_eq!(rows[0].output, "ok");
}

#[test]
fn run_whose_sandbox_fails_to_launch_ends_without_a_result() {
    let mut run = running();
    assert_eq!(run.update(Message::RanDocker(RunArtifact::Failed)), Command::RemoveArtifact);
    assert_eq!(run.stage(), Stage::Ingesting);
    assert_eq!(run.update(Message::ArtifactRead(Some(ARTIFACT.to_vec()))), Command::Nothing);
    assert_eq!(run.grader_result(), None);
    assert_eq!(run.update(Message::ArtifactRemoved(false)), Command::Nothing);
    assert_eq!(run.stage(), Stage::NoResult);
    assert_eq!(run.grader_result(), None);
    assert_eq!(run.issue(), Some(PipelineError::SandboxLaunchFailed));
}

#[test]
fn missing_artifact_is_no_result_and_no_abort() {
    let mut run = running();
    run.update(Message::RanDocker(RunArtifact::Completed));
    assert_eq!(run.update(Message::ArtifactRead(None)), Command::RemoveArtifact);
    assert_eq!(run.update(Message::ArtifactRemoved(false)), Command::Nothing);
    assert_eq!(run.stage(), Stage::NoResult);
    assert_eq!(run.grader_result(), None);
    assert_eq!(run.issue(), Some(PipelineError::ArtifactUnreadable));
    assert!(!PipelineError::ArtifactUnreadable.is_abort());
}

#[test]
fn truncated_artifact_is_no_result_and_is_still_removed() {
    let mut run = running();
    run.update(Message::RanDocker(RunArtifact::Completed));
    let truncated = ARTIFACT[..40].to_vec();
    assert_eq!(run.update(Message::ArtifactRead(Some(truncated))), Command::RemoveArtifact);
    assert_eq!(run.update(Message::ArtifactRemoved(true)), Command::Nothing);
    assert_eq!(run.stage(), Stage::NoResult);
    assert_eq!(run.grader_result(), None);
    assert_eq!(run.issue(), Some(PipelineError::ArtifactMalformed));
}

#[test]
fn artifact_of_the_wrong_shape_is_no_result() {
    let mut run = running();
    run.update(Message::RanDocker(RunArtifact::Completed));
    let wrong = b"{\"score\": \"high\"}".to_vec();
    assert_eq!(run.update(Message::ArtifactRead(Some(wrong))), Command::RemoveArtifact);
    run.update(Message::ArtifactRemoved(true));
    assert_eq!(run.stage(), Stage::NoResult);
    assert_eq!(run.issue(), Some(PipelineError::ArtifactMalformed));
}

#[test]
fn artifact_that_cannot_be_removed_does_not_hide_the_result() {
    let mut run = running();
    run.update(Message::RanDocker(RunArtifact::Completed));
    run.update(Message::ArtifactRead(Some(ARTIFACT.to_vec())));
    assert_eq!(run.update(Message::ArtifactRemoved(false)), Command::Nothing);
    assert_eq!(run.stage(), Stage::Displayed);
    assert!(run.grader_result().is_some());
    assert_eq!(run.issue(), Some(PipelineError::ArtifactCleanupFailed));
    assert!(!PipelineError::ArtifactCleanupFailed.is_abort());
}

#[test]
fn path_that_does_not_exist_aborts_the_run() {
    let mut run = typed();
    run.update(Message::RunDocker);
    let command = run.update(Message::Resolved {
        source: None,
        submission: Some(path(&["work", "sub"])),
        submission_is_directory: true,
    });
    assert_eq!(command, Command::Nothing);
    assert_eq!(run.stage(), Stage::Aborted);
    assert_eq!(run.issue(), Some(PipelineError::PathNotFound));
    assert!(PipelineError::PathNotFound.is_abort());
    assert_eq!(run.update(Message::BuildDescriptionWritten), Command::Nothing);
    assert_eq!(run.update(Message::RanDocker(RunArtifact::Completed)), Command::Nothing);
    assert_eq!(run.stage(), Stage::Aborted);
}

#[test]
fn submission_outside_the_context_gets_a_reference() {
    let mut run = typed();
    run.update(Message::RunDocker);
    assert_eq!(run.update(resolved_outside()), Command::InspectReference(path(&["work", "sub"])));
    assert_eq!(run.stage(), Stage::Resolving);
    assert_eq!(
        run.update(Message::ReferenceInspected(Existing::Absent)),
        Command::CreateReference(reference())
    );
    assert_eq!(run.stage(), Stage::Resolving);
    assert_eq!(run.update(Message::ReferenceCreated(true)), write_command("sub"));
    assert_eq!(run.stage(), Stage::Specifying);
}

#[test]
fn reference_of_an_earlier_run_is_not_placed_again() {
    let mut run = typed();
    run.update(Message::RunDocker);
    run.update(resolved_outside());
    assert_eq!(
        run.update(Message::ReferenceInspected(Existing::Link(path(&["tmp", "sub"])))),
        write_command("sub")
    );
    assert_eq!(run.stage(), Stage::Specifying);
}

#[test]
fn reference_that_cannot_be_placed_aborts_the_run() {
    let mut run = typed();
    run.update(Message::RunDocker);
    run.update(resolved_outside());
    run.update(Message::ReferenceInspected(Existing::Absent));
    assert_eq!(run.update(Message::ReferenceCreated(false)), Command::Nothing);
    assert_eq!(run.stage(), Stage::Aborted);
    assert_eq!(run.issue(), Some(PipelineError::ReferenceCreationFailed));
    assert!(PipelineError::ReferenceCreationFailed.is_abort());

    let mut run = typed();
    run.update(Message::RunDocker);
    run.update(resolved_outside());
    assert_eq!(run.update(Message::ReferenceInspected(Existing::Other)), Command::Nothing);
    assert_eq!(run.stage(), Stage::Aborted);
    assert_eq!(run.issue(), Some(PipelineError::ReferenceCreationFailed));

    let mut run = typed();
    run.update(Message::RunDocker);
    run.update(resolved_outside());
    let elsewhere = Existing::Link(path(&["tmp", "other"]));
    assert_eq!(run.update(Message::ReferenceInspected(elsewhere)), Command::Nothing);
    assert_eq!(run.stage(), Stage::Aborted);
}

#[test]
fn malformed_template_aborts_the_run() {
    let mut run = RunGradescope::new(Templates {
        build_description: String::from("ADD {} /autograder/"),
        launch_script: String::from("run ${IMAGE}"),
    });
    run.update(Message::RunDocker);
    assert_eq!(run.update(resolved_inside()), Command::Nothing);
    assert_eq!(run.stage(), Stage::Aborted);
    assert_eq!(run.issue(), Some(PipelineError::TemplateRenderError));
    assert!(PipelineError::TemplateRenderError.is_abort());
}

#[test]
fn second_request_is_refused_while_a_run_is_under_way() {
    let mut run = typed();
    run.update(Message::RunDocker);
    let before = run.clone();
    assert_eq!(run.update(Message::RunDocker), Command::Nothing);
    assert_eq!(run, before);
    let mut run = running();
    let before = run.clone();
    assert_eq!(run.update(Message::RunDocker), Command::Nothing);
    assert_eq!(run, before);
}

#[test]
fn new_run_takes_the_last_result_from_the_display() {
    let mut run = running();
    run.update(Message::RanDocker(RunArtifact::Completed));
    run.update(Message::ArtifactRead(Some(ARTIFACT.to_vec())));
    run.update(Message::ArtifactRemoved(false));
    assert!(run.grader_result().is_some());
    assert!(matches!(run.update(Message::RunDocker), Command::Canonicalize(_)));
    assert_eq!(run.stage(), Stage::Resolving);
    assert_eq!(run.grader_result(), None);
    assert_eq!(run.issue(), None);
}

#[test]
fn run_can_be_asked_for_again_after_each_ending() {
    let mut run = typed();
    run.update(Message::RunDocker);
    run.update(Message::Resolved { source: None, submission: None, submission_is_directory: false });
    assert_eq!(run.stage(), Stage::Aborted);
    assert!(matches!(run.update(Message::RunDocker), Command::Canonicalize(_)));
    assert_eq!(run.issue(), None);
    run.update(resolved_inside());
    run.update(Message::BuildDescriptionWritten);
    run.update(Message::RanDocker(RunArtifact::Failed));
    run.update(Message::ArtifactRemoved(true));
    assert_eq!(run.stage(), Stage::NoResult);
    assert!(matches!(run.update(Message::RunDocker), Command::Canonicalize(_)));
    assert_eq!(run.stage(), Stage::Resolving);
}

#[test]
fn message_that_is_not_awaited_changes_nothing() {
    let mut run = typed();
    let before = run.clone();
    assert_eq!(run.update(resolved_inside()), Command::Nothing);
    assert_eq!(run.update(Message::ReferenceInspected(Existing::Absent)), Command::Nothing);
    assert_eq!(run.update(Message::ReferenceCreated(true)), Command::Nothing);
    assert_eq!(run.update(Message::BuildDescriptionWritten), Command::Nothing);
    assert_eq!(run.update(Message::RanDocker(RunArtifact::Completed)), Command::Nothing);
    assert_eq!(run.update(Message::ArtifactRead(Some(ARTIFACT.to_vec()))), Command::Nothing);
    assert_eq!(run.update(Message::ArtifactRemoved(true)), Command::Nothing);
    assert_eq!(
        run.update(Message::ResultMessage(gradescope_local::results::Message::RetrieveResults)),
        Command::Nothing
    );
    assert_eq!(run, before);
    let mut run = running();
    let before = run.clone();
    assert_eq!(run.update(resolved_inside()), Command::Nothing);
    assert_eq!(run.update(Message::ArtifactRemoved(true)), Command::Nothing);
    assert_eq!(run, before);
}

#[test]
fn paths_typed_during_a_run_are_for_the_next_run() {
    let mut run = typed();
    run.update(Message::RunDocker);
    run.update(Message::SourcePathChanged(String::from("other.zip")));
    assert_eq!(run.source_path(), "other.zip");
    assert_eq!(run.submission_path(), "./sub/");
    assert_eq!(run.stage(), Stage::Resolving);
    assert_eq!(run.update(resolved_inside()), write_command("sub"));
}

#[test]
fn stages_under_way_are_told_from_stages_at_rest() {
    assert!(in_flight(Stage::Resolving));
    assert!(in_flight(Stage::Specifying));
    assert!(in_flight(Stage::Running));
    assert!(in_flight(Stage::Ingesting));
    assert!(!in_flight(Stage::Idle));
    assert!(!in_flight(Stage::Displayed));
    assert!(!in_flight(Stage::NoResult));
    assert!(!in_flight(Stage::Aborted));
}

#[test]
fn submission_deeper_in_the_context_is_named_by_its_path() {
    let mut run = typed();
    run.update(Message::RunDocker);
    let command = run.update(Message::Resolved {
        source: Some(path(&["work", "autograder.zip"])),
        submission: Some(path(&["work", "students", "ada"])),
        submission_is_directory: true,
    });
    assert_eq!(command, write_command("students/ada"));
}
