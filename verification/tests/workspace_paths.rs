use gradescope_local::error::PipelineError;
use gradescope_local::workspace::{
    reconcile, resolve, BuildContext, CanonicalPath, Existing, Reference, ReferenceStep,
};

fn path(names: &[&str]) -> CanonicalPath {
    CanonicalPath {
        anchor: String::from("/"),
        components: names.iter().map(|name| String::from(*name)).collect(),
    }
}

fn joined(context: &BuildContext, relative: &[String]) -> CanonicalPath {
    let mut components = context.directory.components.clone();
    components.extend(relative.iter().cloned());
    CanonicalPath { anchor: context.directory.anchor.clone(), components }
}

#[test]
fn build_context_is_the_parent_of_the_source() {
    let workspace = resolve(
        Some(path(&["home", "ta", "hw1", "autograder.zip"])),
        Some(path(&["home", "ta", "hw1", "sub"])),
        true,
    )
    .expect("a workspace");
    assert_eq!(workspace.context.directory, path(&["home", "ta", "hw1"]));
    assert_eq!(workspace.source_file_name, "autograder.zip");
}

#[test]
fn submission_inside_the_context_needs_no_reference() {
    let submission = path(&["home", "ta", "hw1", "students", "ada", "sub"]);
    let workspace = resolve(
        Some(path(&["home", "ta", "hw1", "autograder.zip"])),
        Some(submission.clone()),
        true,
    )
    .expect("a workspace");
    assert_eq!(workspace.reference, None);
    assert_eq!(workspace.submission_relative, vec!["students", "ada", "sub"]);
    assert_eq!(workspace.submission_relative_name(), "students/ada/sub");
    assert_eq!(joined(&workspace.context, &workspace.submission_relative), submission);
}

#[test]
fn submission_outside_the_context_is_reached_by_a_reference() {
    let submission = path(&["tmp", "ada", "sub"]);
    let workspace = resolve(
        Some(path(&["home", "ta", "hw1", "autograder.zip"])),
        Some(submission.clone()),
        false,
    )
    .expect("a workspace");
    assert_eq!(workspace.context.directory, path(&["home", "ta", "hw1"]));
    assert_eq!(workspace.submission_relative_name(), "sub");
    let reference = workspace.reference.clone().expect("a reference");
    assert_eq!(
        reference,
        Reference {
            target: submission,
            location: path(&["home", "ta", "hw1", "sub"]),
            directory: false,
        }
    );
    assert_eq!(joined(&workspace.context, &workspace.submission_relative), reference.location);
}

#[test]
fn reference_is_of_the_kind_of_the_submission() {
    let source = path(&["w", "autograder.zip"]);
    let as_directory = resolve(Some(source.clone()), Some(path(&["s", "sub"])), true).unwrap();
    let as_file = resolve(Some(source), Some(path(&["s", "sub.py"])), false).unwrap();
    assert!(as_directory.reference.unwrap().directory);
    assert!(!as_file.reference.unwrap().directory);
}

#[test]
fn submission_that_is_the_context_has_an_empty_relative_name() {
    let workspace =
        resolve(Some(path(&["w", "autograder.zip"])), Some(path(&["w"])), true).unwrap();
    assert_eq!(workspace.reference, None);
    assert_eq!(workspace.submission_relative, Vec::<String>::new());
    assert_eq!(workspace.submission_relative_name(), "");
}

#[test]
fn submission_that_is_the_source_lies_inside_the_context() {
    let source = path(&["w", "autograder.zip"]);
    let workspace = resolve(Some(source.clone()), Some(source), false).unwrap();
    assert_eq!(workspace.reference, None);
    assert_eq!(workspace.submission_relative_name(), "autograder.zip");
}

#[test]
fn sibling_with_a_longer_name_is_outside() {
    let workspace =
        resolve(Some(path(&["hw", "autograder.zip"])), Some(path(&["hw1", "sub"])), true).unwrap();
    assert!(workspace.reference.is_some());
    let workspace =
        resolve(Some(path(&["a", "b", "g.zip"])), Some(path(&["a", "c", "b", "sub"])), true)
            .unwrap();
    assert!(workspace.reference.is_some());
}

#[test]
fn other_anchor_is_outside() {
    let submission = CanonicalPath {
        anchor: String::from("D:\\"),
        components: vec![String::from("w"), String::from("sub")],
    };
    let source = CanonicalPath {
        anchor: String::from("C:\\"),
        components: vec![String::from("w"), String::from("autograder.zip")],
    };
    let workspace = resolve(Some(source), Some(submission.clone()), true).unwrap();
    let reference = workspace.reference.expect("a reference");
    assert_eq!(reference.target, submission);
    assert_eq!(reference.location.anchor, "C:\\");
    assert_eq!(reference.location.components, vec!["w", "sub"]);
}

#[test]
fn missing_path_is_not_found() {
    let here = path(&["w", "autograder.zip"]);
    assert_eq!(resolve(None, Some(here.clone()), false), Err(PipelineError::PathNotFound));
    assert_eq!(resolve(Some(here), None, false), Err(PipelineError::PathNotFound));
    assert_eq!(resolve(None, None, true), Err(PipelineError::PathNotFound));
}

#[test]
fn root_has_no_parent_and_no_name() {
    assert_eq!(
        resolve(Some(path(&[])), Some(path(&["w", "sub"])), true),
        Err(PipelineError::PathNotFound)
    );
    assert_eq!(
        resolve(Some(path(&["w", "g", "autograder.zip"])), Some(path(&[])), true),
        Err(PipelineError::PathNotFound)
    );
    let at_root = resolve(Some(path(&["autograder.zip"])), Some(path(&[])), true).unwrap();
    assert_eq!(at_root.context.directory, path(&[]));
    assert_eq!(at_root.reference, None);
}

#[test]
fn reference_left_by_an_earlier_run_is_used_again() {
    let reference = Reference {
        target: path(&["tmp", "sub"]),
        location: path(&["w", "sub"]),
        directory: true,
    };
    assert_eq!(reconcile(&reference, &Existing::Absent), Ok(ReferenceStep::Create));
    assert_eq!(
        reconcile(&reference, &Existing::Link(path(&["tmp", "sub"]))),
        Ok(ReferenceStep::Reuse)
    );
    assert_eq!(
        reconcile(&reference, &Existing::Link(path(&["tmp", "other"]))),
        Err(PipelineError::ReferenceCreationFailed)
    );
    assert_eq!(
        reconcile(&reference, &Existing::Link(path(&["tmp"]))),
        Err(PipelineError::ReferenceCreationFailed)
    );
    assert_eq!(
        reconcile(&reference, &Existing::Other),
        Err(PipelineError::ReferenceCreationFailed)
    );
}

#[test]
fn paths_are_compared_name_by_name() {
    let a = path(&["a", "b"]);
    assert!(a.same_as(&path(&["a", "b"])));
    assert!(!a.same_as(&path(&["a"])));
    assert!(!a.same_as(&path(&["a", "c"])));
    assert!(!a.same_as(&path(&["a", "b", "c"])));
    assert!(a.is_inside(&path(&["a"])));
    assert!(a.is_inside(&a));
    assert!(!a.is_inside(&path(&["a", "b", "c"])));
    assert!(!a.is_inside(&path(&["b"])));
    assert_eq!(a.duplicate(), a);
    assert_eq!(a.child(&String::from("c")), path(&["a", "b", "c"]));
    assert_eq!(
        path(&["a", "b", "c", "d"]).strip_prefix(&a),
        Some(vec![String::from("c"), String::from("d")])
    );
    assert_eq!(a.strip_prefix(&a), Some(vec![]));
    assert_eq!(a.strip_prefix(&path(&["a", "b", "c"])), None);
    assert_eq!(a.strip_prefix(&path(&["x"])), None);
}
