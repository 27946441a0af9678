//! Running and formatting a single file with the external tool: which call
//! to make, and what its result means.

use vstd::prelude::*;

use crate::failure::{result_view, Failure, FailureView};
use crate::invocation::{InvocationSpec, InvocationSpecView, Launch, LaunchView};
use crate::text::{copy_optional, copy_texts, followed_by, text_of};

verus! {

/// The call that evaluates `file`: `kcl run <file> --format <format>`, one
/// `-D` per definition, and `-o <output>` where an output path is given.
pub open spec fn run_invocation_spec(
    file: Seq<char>,
    format: Seq<char>,
    output: Option<Seq<char>>,
    definitions: Seq<Seq<char>>,
) -> InvocationSpecView {
    InvocationSpecView {
        executable: "kcl"@,
        subcommand: "run"@,
        file,
        format: Some(format),
        output,
        definitions,
    }
}

/// What evaluating a file returns. A call that ended with exit code zero
/// gives the success mark followed by the output path, where one was given
/// (the tool wrote there), else by the captured standard output. Any other
/// end gives the captured standard error as a tool failure; a call that did
/// not start gives the launch failure.
pub open spec fn run_outcome_spec(launch: LaunchView, output: Option<Seq<char>>) -> Result<
    Seq<char>,
    FailureView,
> {
    match launch {
        LaunchView::Failed(message) => Err(FailureView::Launch(message)),
        LaunchView::Completed(result) => if result.success() {
            match output {
                Some(path) => Ok("✅ "@ + path),
                None => Ok("✅ "@ + result.stdout),
            }
        } else {
            Err(FailureView::Tool(result.stderr))
        },
    }
}

/// The call that rewrites `file` in canonical style: `kcl fmt <file>`.
pub open spec fn format_invocation_spec(file: Seq<char>) -> InvocationSpecView {
    InvocationSpecView {
        executable: "kcl"@,
        subcommand: "fmt"@,
        file,
        format: None,
        output: None,
        definitions: Seq::empty(),
    }
}

/// What formatting a file returns: a confirmation that names the file when
/// the call ended with exit code zero, else the failure as for evaluating.
pub open spec fn format_outcome_spec(file: Seq<char>, launch: LaunchView) -> Result<
    Seq<char>,
    FailureView,
> {
    match launch {
        LaunchView::Failed(message) => Err(FailureView::Launch(message)),
        LaunchView::Completed(result) => if result.success() {
            Ok("✅ File formatted: "@ + file)
        } else {
            Err(FailureView::Tool(result.stderr))
        },
    }
}

/// Builds the call that evaluates `file`.
pub fn run_invocation(
    file: &str,
    format: &str,
    output: &Option<String>,
    definitions: &Vec<String>,
) -> (call: InvocationSpec)
    ensures
        call@ == run_invocation_spec(file@, format@, text_of(*output), definitions.deep_view()),
{
    InvocationSpec {
        executable: String::from_str("kcl"),
        subcommand: String::from_str("run"),
        file: String::from_str(file),
        format: Some(String::from_str(format)),
        output: copy_optional(output),
        definitions: copy_texts(definitions),
    }
}

/// Turns the end of an evaluating call into the operation's result.
pub fn run_outcome(launch: &Launch, output: &Option<String>) -> (outcome: Result<String, Failure>)
    ensures
        result_view(outcome) == run_outcome_spec(launch@, text_of(*output)),
        outcome is Ok <==> (launch@ matches LaunchView::Completed(result) && result.success()),
{
    match launch {
        Launch::Failed(message) => Err(Failure::Launch(message.clone())),
        Launch::Completed(result) => {
            if result.success() {
                match output {
                    Some(path) => Ok(followed_by("✅ ", path.as_str())),
                    None => Ok(followed_by("✅ ", result.stdout.as_str())),
                }
            } else {
                Err(Failure::Tool(result.stderr.clone()))
            }
        },
    }
}

/// Builds the call that formats `file`.
pub fn format_invocation(file: &str) -> (call: InvocationSpec)
    ensures
        call@ == format_invocation_spec(file@),
{
    let call = InvocationSpec {
        executable: String::from_str("kcl"),
        subcommand: String::from_str("fmt"),
        file: String::from_str(file),
        format: None,
        output: None,
        definitions: Vec::new(),
    };
    assert(call.definitions.deep_view() =~= Seq::<Seq<char>>::empty());
    call
}

/// Turns the end of a formatting call into the operation's result.
pub fn format_outcome(file: &str, launch: &Launch) -> (outcome: Result<String, Failure>)
    ensures
        result_view(outcome) == format_outcome_spec(file@, launch@),
        outcome is Ok <==> (launch@ matches LaunchView::Completed(result) && result.success()),
{
    match launch {
        Launch::Failed(message) => Err(Failure::Launch(message.clone())),
        Launch::Completed(result) => {
            if result.success() {
                Ok(followed_by("✅ File formatted: ", file))
            } else {
                Err(Failure::Tool(result.stderr.clone()))
            }
        },
    }
}

/// Formatting the same file again gives the same confirmation: of two
/// formatting calls on one file that both ended with exit code zero, the
/// results are equal, whatever else the two calls left behind.
pub proof fn lemma_format_confirmation_is_stable(
    file: Seq<char>,
    first: LaunchView,
    second: LaunchView,
)
    requires
        first matches LaunchView::Completed(result) && result.success(),
        second matches LaunchView::Completed(result) && result.success(),
    ensures
        format_outcome_spec(file, first) == format_outcome_spec(file, second),
        format_outcome_spec(file, first) == Ok::<Seq<char>, FailureView>(
            "✅ File formatted: "@ + file,
        ),
{
}

/// Evaluating never reports success for a call that did not end with exit
/// code zero, and always does for one that did.
pub proof fn lemma_run_succeeds_only_with_the_tool(launch: LaunchView, output: Option<Seq<char>>)
    ensures
        run_outcome_spec(launch, output) is Ok <==> (launch matches LaunchView::Completed(result)
            && result.success()),
{
}

} // verus!
