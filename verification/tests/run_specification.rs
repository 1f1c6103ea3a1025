use gradescope_local::error::PipelineError;
use gradescope_local::runspec::{build_description_name, generate, render, RunSpec, Templates};

fn values() -> Vec<String> {
    vec![String::from("autograder.zip"), String::from("sub")]
}

const MALFORMED: Result<String, PipelineError> = Err(PipelineError::TemplateRenderError);

#[test]
fn places_are_filled_in_order() {
    assert_eq!(
        render("ADD {} /autograder/\nCOPY {} /autograder/submission\n", &values()),
        Ok(String::from("ADD autograder.zip /autograder/\nCOPY sub /autograder/submission\n"))
    );
}

#[test]
fn numbered_places_name_their_value() {
    assert_eq!(render("{1} {0} {1}", &values()), Ok(String::from("sub autograder.zip sub")));
    assert_eq!(render("{0}{0}", &values()), Ok(String::from("autograder.zipautograder.zip")));
}

#[test]
fn numbered_places_do_not_count_as_next() {
    assert_eq!(
        render("{1} {} {0} {}", &values()),
        Ok(String::from("sub autograder.zip autograder.zip sub"))
    );
}

#[test]
fn doubled_braces_are_braces() {
    assert_eq!(render("${{HOME}}/{}", &values()), Ok(String::from("${HOME}/autograder.zip")));
    assert_eq!(render("{{}}", &values()), Ok(String::from("{}")));
    assert_eq!(render("{{{}}}", &values()), Ok(String::from("{autograder.zip}")));
    assert_eq!(render("}}{{", &values()), Ok(String::from("}{")));
}

#[test]
fn text_without_places_is_kept() {
    assert_eq!(render("", &values()), Ok(String::new()));
    assert_eq!(render("FROM gradescope/auto-builds\n", &values()), Ok(String::from("FROM gradescope/auto-builds\n")));
    assert_eq!(render("héllo → {} ✓", &values()), Ok(String::from("héllo → autograder.zip ✓")));
}

#[test]
fn values_are_not_rendered_again() {
    let values = vec![String::from("{1}"), String::from("}{")];
    assert_eq!(render("{} {}", &values), Ok(String::from("{1} }{")));
}

#[test]
fn place_without_a_value_is_malformed() {
    assert_eq!(render("{} {} {}", &values()), MALFORMED);
    assert_eq!(render("{2}", &values()), MALFORMED);
    assert_eq!(render("{9}", &values()), MALFORMED);
    assert_eq!(render("{}", &Vec::new()), MALFORMED);
    assert_eq!(render("{0}", &Vec::new()), MALFORMED);
}

#[test]
fn stray_brace_is_malformed() {
    assert_eq!(render("{", &values()), MALFORMED);
    assert_eq!(render("}", &values()), MALFORMED);
    assert_eq!(render("a { b", &values()), MALFORMED);
    assert_eq!(render("a } b", &values()), MALFORMED);
    assert_eq!(render("{0", &values()), MALFORMED);
    assert_eq!(render("{}}", &values()), MALFORMED);
    assert_eq!(render("{{}", &values()), MALFORMED);
    assert_eq!(render("${HOME}", &values()), MALFORMED);
}

#[test]
fn other_kinds_of_place_are_malformed() {
    assert_eq!(render("{name}", &values()), MALFORMED);
    assert_eq!(render("{:?}", &values()), MALFORMED);
    assert_eq!(render("{0:>5}", &values()), MALFORMED);
    assert_eq!(render("{01}", &values()), MALFORMED);
    assert_eq!(render("{ }", &values()), MALFORMED);
    assert_eq!(render("{-1}", &values()), MALFORMED);
}

#[test]
fn both_templates_get_the_same_two_values() {
    let templates = Templates {
        build_description: String::from("ADD {} /autograder/\nCOPY {} /autograder/submission\n"),
        launch_script: String::from("echo grading {1} with {0}"),
    };
    assert_eq!(
        generate(&templates, &String::from("autograder.zip"), &String::from("students/ada")),
        Ok(RunSpec {
            build_description: String::from(
                "ADD autograder.zip /autograder/\nCOPY students/ada /autograder/submission\n"
            ),
            launch_script: String::from("echo grading students/ada with autograder.zip"),
        })
    );
}

#[test]
fn malformed_template_gives_no_run_specification() {
    let bad_script = Templates {
        build_description: String::from("ADD {} /autograder/"),
        launch_script: String::from("echo ${PWD}"),
    };
    let bad_description = Templates {
        build_description: String::from("ADD {} {} {}"),
        launch_script: String::from("echo"),
    };
    let name = String::from("a.zip");
    assert_eq!(generate(&bad_script, &name, &name), Err(PipelineError::TemplateRenderError));
    assert_eq!(generate(&bad_description, &name, &name), Err(PipelineError::TemplateRenderError));
}

#[test]
fn build_description_has_a_fixed_name() {
    assert_eq!(build_description_name(), "Dockerfile");
}
