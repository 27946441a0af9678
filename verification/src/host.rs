//! The surface that a host shell sees: the three named commands, the
//! arguments they take with their defaults, and the labelled error that a
//! failure becomes.

use vstd::prelude::*;

use crate::failure::{result_view, Failure, Operation};
use crate::invocation::{InvocationSpec, Launch};
use crate::runner::{run_invocation, run_invocation_spec, run_outcome, run_outcome_spec};
use crate::text::{copy_optional, text_of};

verus! {

/// The name under which the host offers `operation`.
pub open spec fn command_name_spec(operation: Operation) -> Seq<char> {
    match operation {
        Operation::Run => "kcl-run"@,
        Operation::Format => "kcl-format"@,
        Operation::Validate => "kcl-validate"@,
    }
}

/// The title of the error that the host shows when `operation` fails.
pub open spec fn failure_title(operation: Operation) -> Seq<char> {
    match operation {
        Operation::Run => "Error executing KCL"@,
        Operation::Format => "Error formatting KCL"@,
        Operation::Validate => "Error validating KCL project"@,
    }
}

/// The name under which the host offers `operation`.
pub fn command_name(operation: Operation) -> (name: &'static str)
    ensures
        name@ == command_name_spec(operation),
{
    match operation {
        Operation::Run => "kcl-run",
        Operation::Format => "kcl-format",
        Operation::Validate => "kcl-validate",
    }
}

/// A failure as the host shows it: a title that names the operation, and
/// under it the failure written out.
#[derive(Debug, PartialEq, Eq)]
pub struct LabeledFailure {
    pub title: String,
    pub label: String,
}

/// Words `failure` of `operation` for the host.
pub fn label_failure(operation: Operation, failure: &Failure) -> (labeled: LabeledFailure)
    ensures
        labeled.title@ == failure_title(operation),
        labeled.label@ == failure@.describe(operation),
{
    let title = match operation {
        Operation::Run => "Error executing KCL",
        Operation::Format => "Error formatting KCL",
        Operation::Validate => "Error validating KCL project",
    };
    LabeledFailure { title: String::from_str(title), label: failure.describe(operation) }
}

/// What the host gets from `operation`: the text of a success unchanged,
/// a failure as a labelled error.
pub fn host_result(operation: Operation, outcome: Result<String, Failure>) -> (answer: Result<
    String,
    LabeledFailure,
>)
    ensures
        match outcome {
            Ok(text) => answer == Ok::<String, LabeledFailure>(text),
            Err(failure) => answer matches Err(labeled) && labeled.title@ == failure_title(
                operation,
            ) && labeled.label@ == failure@.describe(operation),
        },
{
    match outcome {
        Ok(text) => Ok(text),
        Err(failure) => Err(label_failure(operation, &failure)),
    }
}

/// Those of `values` that are present, in their order.
pub open spec fn present(values: Seq<Option<Seq<char>>>) -> Seq<Seq<char>>
    decreases values.len(),
{
    if values.len() == 0 {
        Seq::empty()
    } else {
        match values.last() {
            Some(text) => present(values.drop_last()).push(text),
            None => present(values.drop_last()),
        }
    }
}

/// What the run command works on, once the defaults are filled in.
#[derive(Debug, PartialEq, Eq)]
pub struct RunRequest {
    pub file: String,
    pub format: String,
    pub output: Option<String>,
    pub definitions: Vec<String>,
}

/// The mathematical content of a [`RunRequest`].
pub struct RunRequestView {
    pub file: Seq<char>,
    pub format: Seq<char>,
    pub output: Option<Seq<char>>,
    pub definitions: Seq<Seq<char>>,
}

impl View for RunRequest {
    type V = RunRequestView;

    open spec fn view(&self) -> RunRequestView {
        RunRequestView {
            file: self.file@,
            format: self.format@,
            output: text_of(self.output),
            definitions: self.definitions.deep_view(),
        }
    }
}

/// The request that the arguments of the run command make. A flag is
/// `None` where it was not given or its value is no text, and a definition
/// is `None` where it is no text. The format is YAML unless one is given,
/// there is no output path unless one is given, and the definitions are
/// those given that are text.
pub open spec fn run_request_spec(
    file: Seq<char>,
    format: Option<Seq<char>>,
    output: Option<Seq<char>>,
    definitions: Option<Seq<Option<Seq<char>>>>,
) -> RunRequestView {
    RunRequestView {
        file,
        format: match format {
            Some(text) => text,
            None => "yaml"@,
        },
        output,
        definitions: match definitions {
            Some(values) => present(values),
            None => Seq::empty(),
        },
    }
}

/// The directory that the validate command works on: the one given, or
/// the current directory.
pub open spec fn directory_or_default_spec(dir: Option<Seq<char>>) -> Seq<char> {
    match dir {
        Some(text) => text,
        None => "."@,
    }
}

/// Fills in the defaults of the run command's arguments.
pub fn run_request(
    file: &str,
    format: &Option<String>,
    output: &Option<String>,
    definitions: &Option<Vec<Option<String>>>,
) -> (request: RunRequest)
    ensures
        request@ == run_request_spec(
            file@,
            text_of(*format),
            text_of(*output),
            definitions.deep_view(),
        ),
{
    let format = match format {
        Some(text) => text.clone(),
        None => String::from_str("yaml"),
    };
    let mut kept: Vec<String> = Vec::new();
    assert(kept.deep_view() =~= Seq::<Seq<char>>::empty());
    match definitions {
        Some(values) => {
            let mut i: usize = 0;
            assert(values.deep_view().take(0) =~= Seq::<Option<Seq<char>>>::empty());
            while i < values.len()
                invariant
                    i <= values.len(),
                    kept.deep_view() == present(values.deep_view().take(i as int)),
                decreases values.len() - i,
            {
                let ghost before = kept.deep_view();
                let ghost seen = values.deep_view().take(i + 1);
                assert(seen.drop_last() =~= values.deep_view().take(i as int));
                assert(seen.last() == values[i as int].deep_view());
                match &values[i] {
                    Some(text) => {
                        kept.push(text.clone());
                        assert(kept.deep_view() =~= before.push(text@));
                    },
                    None => {},
                }
                i += 1;
            }
            assert(values.deep_view().take(i as int) =~= values.deep_view());
        },
        None => {},
    }
    RunRequest {
        file: String::from_str(file),
        format,
        output: copy_optional(output),
        definitions: kept,
    }
}

impl RunRequest {
    /// The call of the external tool that serves the request.
    pub fn invocation(&self) -> (call: InvocationSpec)
        ensures
            call@ == run_invocation_spec(
                self@.file,
                self@.format,
                self@.output,
                self@.definitions,
            ),
    {
        run_invocation(
            self.file.as_str(),
            self.format.as_str(),
            &self.output,
            &self.definitions,
        )
    }

    /// The result of the request, given how the call ended.
    pub fn outcome(&self, launch: &Launch) -> (outcome: Result<String, Failure>)
        ensures
            result_view(outcome) == run_outcome_spec(launch@, self@.output),
    {
        run_outcome(launch, &self.output)
    }
}

/// Fills in the default of the validate command's argument.
pub fn directory_or_default(dir: Option<String>) -> (chosen: String)
    ensures
        chosen@ == directory_or_default_spec(text_of(dir)),
{
    match dir {
        Some(text) => text,
        None => String::from_str("."),
    }
}

} // verus!
