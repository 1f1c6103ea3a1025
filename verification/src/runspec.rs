//! Rendering the run specification: the build description and the launch
//! script of a run, each from a template.
//!
//! A template is text with places for the two values of a run, the name of
//! the grader source and the path of the submission, both as seen from the
//! build context. The places are written as in a format string:
//!
//! - `{}` stands for the next value: the first `{}` for the first value, the
//!   second `{}` for the second;
//! - `{0}` and `{1}` stand for the first and the second value, wherever they
//!   are written;
//! - `{{` and `}}` stand for the braces themselves.
//!
//! Any other use of a brace makes the template malformed, and so does a place
//! for a value that is not there.

use vstd::prelude::*;
use crate::error::PipelineError;
use crate::text::{chars_of, push_char, texts_view};

verus! {

/// Whether `c` is a decimal digit.
pub open spec fn is_digit_char(c: char) -> bool {
    '0' <= c <= '9'
}

/// The number that the digit `c` writes.
pub open spec fn digit_char_value(c: char) -> nat {
    (c as int - '0' as int) as nat
}

/// `rest` after `text`, if there is a `rest`.
pub open spec fn after(text: Seq<char>, rest: Option<Seq<char>>) -> Option<Seq<char>> {
    match rest {
        Some(rest) => Some(text + rest),
        None => None,
    }
}

/// What the part of `template` from the index `from` on renders to, where
/// `next` counts the places `{}` before that part; `None` if that part is
/// malformed.
pub open spec fn rendered_from(
    template: Seq<char>,
    from: int,
    next: nat,
    values: Seq<Seq<char>>,
) -> Option<Seq<char>>
    decreases template.len() - from,
{
    if from < 0 || from >= template.len() {
        Some(Seq::<char>::empty())
    } else if template[from] == '{' {
        if from + 1 < template.len() && template[from + 1] == '{' {
            after(seq!['{'], rendered_from(template, from + 2, next, values))
        } else if from + 1 < template.len() && template[from + 1] == '}' {
            if next < values.len() {
                after(values[next as int], rendered_from(template, from + 2, next + 1, values))
            } else {
                None
            }
        } else if from + 2 < template.len() && is_digit_char(template[from + 1]) && template[from
            + 2] == '}' {
            let index = digit_char_value(template[from + 1]);
            if index < values.len() {
                after(values[index as int], rendered_from(template, from + 3, next, values))
            } else {
                None
            }
        } else {
            None
        }
    } else if template[from] == '}' {
        if from + 1 < template.len() && template[from + 1] == '}' {
            after(seq!['}'], rendered_from(template, from + 2, next, values))
        } else {
            None
        }
    } else {
        after(seq![template[from]], rendered_from(template, from + 1, next, values))
    }
}

/// What `template` renders to with the given values; `None` if it is
/// malformed.
pub open spec fn rendered(template: Seq<char>, values: Seq<Seq<char>>) -> Option<Seq<char>> {
    rendered_from(template, 0, 0, values)
}

/// Renders a template with the given values.
pub fn render(template: &str, values: &Vec<String>) -> (r: Result<String, PipelineError>)
    ensures
        match r {
            Ok(text) => rendered(template@, texts_view(values@)) == Some(text@),
            Err(error) => error == PipelineError::TemplateRenderError && rendered(
                template@,
                texts_view(values@),
            ) is None,
        },
{
    let chars = chars_of(template);
    let ghost all = texts_view(values@);
    let mut text = String::new();
    let mut next: usize = 0;
    let mut i: usize = 0;
    let n: usize = chars.len();
    assert(Seq::<char>::empty() + rendered_from(chars@, 0, 0, all)->0 =~= rendered_from(
        chars@,
        0,
        0,
        all,
    )->0);
    while i < n
        invariant
            i <= n,
            n == chars.len(),
            chars@ == template@,
            all == texts_view(values@),
            next <= i,
            rendered(chars@, all) == after(text@, rendered_from(chars@, i as int, next as nat, all)),
        decreases n - i,
    {
        let c = chars[i];
        let ghost before = text@;
        let ghost step: Seq<char>;
        let ghost rest: Option<Seq<char>>;
        if c == '{' {
            if i + 1 < n && chars[i + 1] == '{' {
                push_char(&mut text, '{');
                proof {
                    step = seq!['{'];
                    rest = rendered_from(chars@, i + 2, next as nat, all);
                }
                i += 2;
            } else if i + 1 < n && chars[i + 1] == '}' {
                if next >= values.len() {
                    return Err(PipelineError::TemplateRenderError);
                }
                text.append(values[next].as_str());
                proof {
                    step = all[next as int];
                    rest = rendered_from(chars@, i + 2, (next + 1) as nat, all);
                }
                next += 1;
                i += 2;
            } else if n - i > 2 && '0' <= chars[i + 1] && chars[i + 1] <= '9' && chars[i + 2]
                == '}' {
                let index: usize = (chars[i + 1] as u8 - 48) as usize;
                if index >= values.len() {
                    return Err(PipelineError::TemplateRenderError);
                }
                text.append(values[index].as_str());
                proof {
                    step = all[index as int];
                    rest = rendered_from(chars@, i + 3, next as nat, all);
                }
                i += 3;
            } else {
                return Err(PipelineError::TemplateRenderError);
            }
        } else if c == '}' {
            if i + 1 < n && chars[i + 1] == '}' {
                push_char(&mut text, '}');
                proof {
                    step = seq!['}'];
                    rest = rendered_from(chars@, i + 2, next as nat, all);
                }
                i += 2;
            } else {
                return Err(PipelineError::TemplateRenderError);
            }
        } else {
            push_char(&mut text, c);
            proof {
                step = seq![c];
                rest = rendered_from(chars@, i + 1, next as nat, all);
            }
            i += 1;
        }
        proof {
            assert(text@ =~= before + step);
            if rest is Some {
                assert(before + (step + rest->0) =~= (before + step) + rest->0);
            }
        }
    }
    assert(text@ + Seq::<char>::empty() =~= text@);
    Ok(text)
}

/// The templates of a run specification.
#[derive(Debug, Clone, PartialEq, Eq)]
pub struct Templates {
    /// The template of the build description.
    pub build_description: String,
    /// The template of the launch script.
    pub launch_script: String,
}

/// A run specification: what the sandbox is built from, and the script that
/// starts it.
#[derive(Debug, Clone, PartialEq, Eq)]
pub struct RunSpec {
    pub build_description: String,
    pub launch_script: String,
}

/// What a [`Templates`] holds.
pub ghost struct TemplatesView {
    pub build_description: Seq<char>,
    pub launch_script: Seq<char>,
}

/// What a [`RunSpec`] holds.
pub ghost struct RunSpecView {
    pub build_description: Seq<char>,
    pub launch_script: Seq<char>,
}

impl View for Templates {
    type V = TemplatesView;

    open spec fn view(&self) -> TemplatesView {
        TemplatesView {
            build_description: self.build_description@,
            launch_script: self.launch_script@,
        }
    }
}

impl View for RunSpec {
    type V = RunSpecView;

    open spec fn view(&self) -> RunSpecView {
        RunSpecView {
            build_description: self.build_description@,
            launch_script: self.launch_script@,
        }
    }
}

/// The run specification for a grader source and a submission, each named
/// as it is seen from the build context: both templates rendered with these
/// two values, in this order. There is none if a template is malformed.
pub open spec fn generated(
    templates: TemplatesView,
    source_file_name: Seq<char>,
    submission_relative_name: Seq<char>,
) -> Option<RunSpecView> {
    let values = seq![source_file_name, submission_relative_name];
    let build_description = rendered(templates.build_description, values);
    let launch_script = rendered(templates.launch_script, values);
    if build_description is Some && launch_script is Some {
        Some(
            RunSpecView {
                build_description: build_description->0,
                launch_script: launch_script->0,
            },
        )
    } else {
        None
    }
}

/// Renders the run specification for a grader source and a submission.
pub fn generate(
    templates: &Templates,
    source_file_name: &String,
    submission_relative_name: &String,
) -> (r: Result<RunSpec, PipelineError>)
    ensures
        match r {
            Ok(spec) => generated(templates@, source_file_name@, submission_relative_name@)
                == Some(spec@),
            Err(error) => error == PipelineError::TemplateRenderError && generated(
                templates@,
                source_file_name@,
                submission_relative_name@,
            ) is None,
        },
{
    let mut values: Vec<String> = Vec::new();
    values.push(source_file_name.clone());
    values.push(submission_relative_name.clone());
    assert(texts_view(values@) =~= seq![source_file_name@, submission_relative_name@]);
    let build_description = render(templates.build_description.as_str(), &values)?;
    let launch_script = render(templates.launch_script.as_str(), &values)?;
    Ok(RunSpec { build_description, launch_script })
}

/// The name under which the build description is written into the build
/// context.
pub open spec fn description_name() -> Seq<char> {
    "Dockerfile"@
}

/// The name under which the build description is written into the build
/// context.
pub fn build_description_name() -> (name: String)
    ensures
        name@ == description_name(),
{
    String::from_str("Dockerfile")
}

} // verus!
