//! Validating a project: every file of a directory is evaluated with the
//! external tool, and the outcomes are summed up in one report.
//!
//! The work alternates between calls that only the caller can make and
//! decisions that are made here. [`ProjectValidator`] holds the decisions:
//! it says which command to run next, takes what the command gave, and at
//! the end hands out the result.

use vstd::prelude::*;

use crate::failure::{result_view, Failure, FailureView};
use crate::invocation::{CommandLine, CommandLineView, Launch, LaunchView};
use crate::report::{
    file_outcome, judge, report_lines, report_text, FileOutcomeView, ValidationReport,
};
use crate::runner::{run_invocation, run_invocation_spec};
use crate::text::{decimal, followed_by, joined, nonempty_lines, nonempty_lines_of};

verus! {

/// The command that lists the regular files under `dir` whose names end in
/// `.k`, one path to a line.
pub open spec fn discovery_command(dir: Seq<char>) -> CommandLineView {
    CommandLineView {
        program: "find"@,
        arguments: seq![dir, "-name"@, "*.k"@, "-type"@, "f"@],
    }
}

/// The command that checks `file`: evaluating it with YAML output, no
/// definitions and no output path.
pub open spec fn check_command(file: Seq<char>) -> CommandLineView {
    run_invocation_spec(file, "yaml"@, None, Seq::empty()).command_line()
}

/// The state of a validation: the directory, whether its files have been
/// listed yet, the files in the order of the listing, and the outcomes of
/// those examined so far.
pub struct ValidatorView {
    pub dir: Seq<char>,
    pub discovered: bool,
    pub files: Seq<Seq<char>>,
    pub outcomes: Seq<FileOutcomeView>,
}

impl ValidatorView {
    /// Before the listing nothing is known. After it at least one file is
    /// still to be examined, and the outcomes so far are those of the first
    /// files of the listing, in its order.
    pub open spec fn wf(self) -> bool {
        if self.discovered {
            &&& self.outcomes.len() < self.files.len()
            &&& forall|i: int|
                0 <= i < self.outcomes.len() ==> (#[trigger] self.outcomes[i]).file
                    == self.files[i]
        } else {
            self.files.len() == 0 && self.outcomes.len() == 0
        }
    }
}

/// What a validation does next: run a command and come back with what it
/// gave, or stop with the result.
pub enum ProgressView {
    Invoke(ValidatorView, CommandLineView),
    Finished(Result<Seq<char>, FailureView>),
}

/// The state in which a validation of `dir` starts.
pub open spec fn begin_spec(dir: Seq<char>) -> ValidatorView {
    ValidatorView { dir, discovered: false, files: Seq::empty(), outcomes: Seq::empty() }
}

/// One step of a validation.
///
/// The first event is the end of the listing. A listing that did not start
/// or did not end with exit code zero ends the validation with a discovery
/// failure. Otherwise the files are the lines of its output that are not
/// empty; without any, the validation ends with a message saying so, and
/// with some, the first is checked.
///
/// Every later event is the end of the check of the next file. Its outcome
/// is recorded whatever it is, and the following file is checked; after
/// the last file the validation ends with the report.
pub open spec fn advance_spec(state: ValidatorView, event: LaunchView) -> ProgressView {
    if !state.discovered {
        match event {
            LaunchView::Failed(message) => ProgressView::Finished(
                Err(FailureView::Discovery(message)),
            ),
            LaunchView::Completed(result) => if !result.success() {
                ProgressView::Finished(Err(FailureView::Discovery(result.stderr)))
            } else {
                let files = nonempty_lines(result.stdout);
                if files.len() == 0 {
                    ProgressView::Finished(Ok("No KCL files found in "@ + state.dir))
                } else {
                    ProgressView::Invoke(
                        ValidatorView {
                            dir: state.dir,
                            discovered: true,
                            files,
                            outcomes: Seq::empty(),
                        },
                        check_command(files[0]),
                    )
                }
            },
        }
    } else {
        let examined = state.files[state.outcomes.len() as int];
        let outcomes = state.outcomes.push(file_outcome(examined, event));
        if outcomes.len() >= state.files.len() {
            ProgressView::Finished(Ok(report_text(outcomes)))
        } else {
            ProgressView::Invoke(
                ValidatorView {
                    dir: state.dir,
                    discovered: true,
                    files: state.files,
                    outcomes,
                },
                check_command(state.files[outcomes.len() as int]),
            )
        }
    }
}

/// A validation under way.
#[derive(Debug)]
pub struct ProjectValidator {
    dir: String,
    discovered: bool,
    files: Vec<String>,
    report: ValidationReport,
}

impl View for ProjectValidator {
    type V = ValidatorView;

    closed spec fn view(&self) -> ValidatorView {
        ValidatorView {
            dir: self.dir@,
            discovered: self.discovered,
            files: self.files.deep_view(),
            outcomes: self.report@,
        }
    }
}

/// What a validation asks of its caller next.
#[derive(Debug)]
pub enum Progress {
    /// Run the command, then call [`ProjectValidator::advance`] on the
    /// validator with what the command gave.
    Invoke(ProjectValidator, CommandLine),
    /// The validation is over; this is its result.
    Finished(Result<String, Failure>),
}

impl View for Progress {
    type V = ProgressView;

    open spec fn view(&self) -> ProgressView {
        match self {
            Progress::Invoke(validator, command) => ProgressView::Invoke(validator@, command@),
            Progress::Finished(result) => ProgressView::Finished(result_view(*result)),
        }
    }
}

/// Builds the command that checks `file`.
fn check_command_for(file: &str) -> (command: CommandLine)
    ensures
        command@ == check_command(file@),
{
    let none: Option<String> = None;
    let definitions: Vec<String> = Vec::new();
    assert(definitions.deep_view() =~= Seq::<Seq<char>>::empty());
    run_invocation(file, "yaml", &none, &definitions).command_line()
}

impl ProjectValidator {
    /// The state is consistent: see [`ValidatorView::wf`].
    pub closed spec fn wf(&self) -> bool {
        self.report.wf() && self@.wf()
    }

    /// Starts a validation of `dir`. The command to run first is the one
    /// that lists the files.
    pub fn begin(dir: &str) -> (start: (ProjectValidator, CommandLine))
        ensures
            start.0.wf(),
            start.0@ == begin_spec(dir@),
            start.1@ == discovery_command(dir@),
    {
        let mut arguments: Vec<String> = Vec::new();
        arguments.push(String::from_str(dir));
        arguments.push(String::from_str("-name"));
        arguments.push(String::from_str("*.k"));
        arguments.push(String::from_str("-type"));
        arguments.push(String::from_str("f"));
        let command = CommandLine { program: String::from_str("find"), arguments };
        assert(command@.arguments =~= discovery_command(dir@).arguments);
        let validator = ProjectValidator {
            dir: String::from_str(dir),
            discovered: false,
            files: Vec::new(),
            report: ValidationReport::new(),
        };
        assert(validator@.files =~= Seq::<Seq<char>>::empty());
        (validator, command)
    }

    /// Takes what the last command gave and decides what comes next.
    pub fn advance(self, event: &Launch) -> (progress: Progress)
        requires
            self.wf(),
        ensures
            progress@ == advance_spec(self@, event@),
            progress matches Progress::Invoke(next, _) ==> next.wf(),
    {
        if !self.discovered {
            match event {
                Launch::Failed(message) => Progress::Finished(
                    Err(Failure::Discovery(message.clone())),
                ),
                Launch::Completed(result) => {
                    if !result.success() {
                        Progress::Finished(Err(Failure::Discovery(result.stderr.clone())))
                    } else {
                        let files = nonempty_lines_of(result.stdout.as_str());
                        if files.len() == 0 {
                            Progress::Finished(
                                Ok(followed_by("No KCL files found in ", self.dir.as_str())),
                            )
                        } else {
                            let command = check_command_for(files[0].as_str());
                            let next = ProjectValidator {
                                dir: self.dir,
                                discovered: true,
                                files,
                                report: ValidationReport::new(),
                            };
                            Progress::Invoke(next, command)
                        }
                    }
                },
            }
        } else {
            let ghost before = self@;
            let ProjectValidator { dir, discovered, files, report } = self;
            let mut report = report;
            let index = report.count();
            report.record(judge(files[index].as_str(), event));
            if report.count() >= files.len() {
                Progress::Finished(Ok(report.render()))
            } else {
                let command = check_command_for(files[report.count()].as_str());
                let next = ProjectValidator { dir, discovered: true, files, report };
                proof {
                    let after = next@;
                    assert forall|i: int| 0 <= i < after.outcomes.len() implies (
                    #[trigger] after.outcomes[i]).file == after.files[i] by {
                        if i < before.outcomes.len() {
                            assert(after.outcomes[i] == before.outcomes[i]);
                        }
                    }
                }
                Progress::Invoke(next, command)
            }
        }
    }
}

/// The files that a listing names: the lines of its output that are not
/// empty, where it ended with exit code zero, and none otherwise.
pub open spec fn discovered_files(discovery: LaunchView) -> Seq<Seq<char>> {
    match discovery {
        LaunchView::Completed(result) => if result.success() {
            nonempty_lines(result.stdout)
        } else {
            Seq::empty()
        },
        LaunchView::Failed(_) => Seq::empty(),
    }
}

/// The outcomes of `files` where the check of each ended as `checks` says,
/// position by position.
pub open spec fn judged(files: Seq<Seq<char>>, checks: Seq<LaunchView>) -> Seq<FileOutcomeView> {
    Seq::new(files.len(), |i: int| file_outcome(files[i], checks[i]))
}

/// The result of validating `dir` where the listing ended as `discovery`
/// says and the check of the file at each position as `checks` says.
pub open spec fn validation_result(
    dir: Seq<char>,
    discovery: LaunchView,
    checks: Seq<LaunchView>,
) -> Result<Seq<char>, FailureView> {
    match discovery {
        LaunchView::Failed(message) => Err(FailureView::Discovery(message)),
        LaunchView::Completed(result) => if !result.success() {
            Err(FailureView::Discovery(result.stderr))
        } else if discovered_files(discovery).len() == 0 {
            Ok("No KCL files found in "@ + dir)
        } else {
            Ok(report_text(judged(discovered_files(discovery), checks)))
        },
    }
}

/// Where a validation in `state` stands after the events `events`, taken
/// in their order: its result once it is over, nothing while it still
/// waits for an event.
pub open spec fn drive(state: ValidatorView, events: Seq<LaunchView>) -> Option<
    Result<Seq<char>, FailureView>,
>
    decreases events.len(),
{
    if events.len() == 0 {
        None
    } else {
        match advance_spec(state, events[0]) {
            ProgressView::Finished(result) => Some(result),
            ProgressView::Invoke(next, _) => drive(next, events.skip(1)),
        }
    }
}

/// A validation that has examined the first `done` files goes on to
/// examine all the others and ends with the report on every file.
proof fn lemma_drive_examines_the_rest(
    state: ValidatorView,
    checks: Seq<LaunchView>,
    done: int,
)
    requires
        state.discovered,
        0 <= done < state.files.len(),
        checks.len() == state.files.len(),
        state.outcomes == judged(state.files, checks).take(done),
    ensures
        drive(state, checks.skip(done)) == Some(
            Ok::<Seq<char>, FailureView>(report_text(judged(state.files, checks))),
        ),
    decreases state.files.len() - done,
{
    let all = judged(state.files, checks);
    let events = checks.skip(done);
    assert(events[0] == checks[done]);
    let outcomes = state.outcomes.push(file_outcome(state.files[done], checks[done]));
    assert(outcomes =~= all.take(done + 1));
    if done + 1 >= state.files.len() {
        assert(all.take(done + 1) =~= all);
    } else {
        let next = ValidatorView {
            dir: state.dir,
            discovered: true,
            files: state.files,
            outcomes,
        };
        lemma_drive_examines_the_rest(next, checks, done + 1);
        assert(events.skip(1) =~= checks.skip(done + 1));
    }
}

/// Stepping through a validation gives the result of the whole: fed the
/// end of the listing and then the end of the check of each listed file,
/// in the order of the listing, the validation is over exactly after the
/// last of them, with [`validation_result`]. No outcome of a check ends it
/// earlier.
pub proof fn lemma_validation_examines_every_file(
    dir: Seq<char>,
    discovery: LaunchView,
    checks: Seq<LaunchView>,
)
    requires
        checks.len() == discovered_files(discovery).len(),
    ensures
        drive(begin_spec(dir), seq![discovery] + checks) == Some(
            validation_result(dir, discovery, checks),
        ),
        forall|n: int|
            0 <= n < checks.len() ==> drive(
                begin_spec(dir),
                #[trigger] (seq![discovery] + checks.take(n)),
            ) is None,
{
    let events = seq![discovery] + checks;
    let files = discovered_files(discovery);
    assert(events[0] == discovery);
    assert(events.skip(1) =~= checks);
    if files.len() > 0 {
        let first = ValidatorView {
            dir,
            discovered: true,
            files,
            outcomes: Seq::empty(),
        };
        assert(first.outcomes =~= judged(files, checks).take(0));
        lemma_drive_examines_the_rest(first, checks, 0);
        assert(checks.skip(0) =~= checks);
        assert forall|n: int| 0 <= n < checks.len() implies drive(
            begin_spec(dir),
            #[trigger] (seq![discovery] + checks.take(n)),
        ) is None by {
            let part = seq![discovery] + checks.take(n);
            assert(part[0] == discovery);
            assert(part.skip(1) =~= checks.take(n));
            lemma_drive_waits(first, checks, 0, n);
            assert(checks.take(n).skip(0) =~= checks.take(n));
        }
    }
}

/// A validation that has examined the first `done` files and is fed the
/// checks of only some of the others is not over.
proof fn lemma_drive_waits(state: ValidatorView, checks: Seq<LaunchView>, done: int, fed: int)
    requires
        state.discovered,
        0 <= done <= fed < state.files.len(),
        checks.len() == state.files.len(),
        state.outcomes.len() == done,
    ensures
        drive(state, checks.take(fed).skip(done)) is None,
    decreases fed - done,
{
    let events = checks.take(fed).skip(done);
    if done < fed {
        let outcomes = state.outcomes.push(file_outcome(state.files[done], events[0]));
        let next = ValidatorView {
            dir: state.dir,
            discovered: true,
            files: state.files,
            outcomes,
        };
        lemma_drive_waits(next, checks, done + 1, fed);
        assert(events.skip(1) =~= checks.take(fed).skip(done + 1));
    }
}

/// A project without files is valid input: where the listing ended with
/// exit code zero and named no file, the validation succeeds at once with
/// a message that says so and names the directory, and no file is checked.
pub proof fn lemma_empty_project_succeeds(dir: Seq<char>, discovery: LaunchView)
    requires
        discovery matches LaunchView::Completed(result) && result.success(),
        discovered_files(discovery).len() == 0,
    ensures
        advance_spec(begin_spec(dir), discovery) == ProgressView::Finished(
            Ok("No KCL files found in "@ + dir),
        ),
        validation_result(dir, discovery, Seq::empty()) == Ok::<Seq<char>, FailureView>(
            "No KCL files found in "@ + dir,
        ),
{
}

/// Where every listed file passes its check, the validation succeeds with
/// a report whose header gives the number of files, followed by one
/// success line for each file, in the order of the listing.
pub proof fn lemma_all_files_valid(dir: Seq<char>, discovery: LaunchView, checks: Seq<LaunchView>)
    requires
        discovery matches LaunchView::Completed(result) && result.success(),
        discovered_files(discovery).len() > 0,
        checks.len() == discovered_files(discovery).len(),
        forall|i: int|
            0 <= i < checks.len() ==> (#[trigger] checks[i] matches LaunchView::Completed(result)
                && result.success()),
    ensures
        validation_result(dir, discovery, checks) == Ok::<Seq<char>, FailureView>(
            "✅ All "@ + decimal(checks.len()) + " files are valid"@ + "\n\n"@ + joined(
                Seq::new(checks.len(), |i: int| "✅ "@ + discovered_files(discovery)[i]),
                "\n"@,
            ),
        ),
{
    let files = discovered_files(discovery);
    let outcomes = judged(files, checks);
    assert forall|i: int| 0 <= i < outcomes.len() implies (#[trigger] outcomes[i]).passed by {
        assert(checks[i] matches LaunchView::Completed(result) && result.success());
    }
    assert(report_lines(outcomes) =~= Seq::new(checks.len(), |i: int| "✅ "@ + files[i])) by {
        assert forall|i: int| 0 <= i < outcomes.len() implies report_lines(outcomes)[i] == "✅ "@
            + files[i] by {
            assert(outcomes[i].passed);
        }
    }
}

/// The report's line for `file` where its check ended as `check` says.
pub open spec fn check_line(file: Seq<char>, check: LaunchView) -> Seq<char> {
    match check {
        LaunchView::Completed(result) => if result.success() {
            "✅ "@ + file
        } else {
            "❌ "@ + file + ": "@ + result.stderr
        },
        LaunchView::Failed(message) => "❌ "@ + file + ": "@ + ("Execution error: "@ + message),
    }
}

/// Where some listed file fails its check, the validation still examines
/// every file. Its report says in the header that there were errors and
/// holds one line for each file, in the order of the listing: a success
/// line for a file that passed, and for a file that failed a failure line
/// with the reason, which is what the tool wrote to its standard error
/// stream, or, where the check did not start, what the operating system
/// said, marked as an execution error.
pub proof fn lemma_some_files_invalid(
    dir: Seq<char>,
    discovery: LaunchView,
    checks: Seq<LaunchView>,
    failed: int,
)
    requires
        discovery matches LaunchView::Completed(result) && result.success(),
        checks.len() == discovered_files(discovery).len(),
        0 <= failed < checks.len(),
        !(checks[failed] matches LaunchView::Completed(result) && result.success()),
    ensures
        validation_result(dir, discovery, checks) == Ok::<Seq<char>, FailureView>(
            "❌ Errors found in some files"@ + "\n\n"@ + joined(
                report_lines(judged(discovered_files(discovery), checks)),
                "\n"@,
            ),
        ),
        report_lines(judged(discovered_files(discovery), checks)).len() == checks.len(),
        forall|i: int|
            #![trigger checks[i]]
            0 <= i < checks.len() ==> report_lines(judged(discovered_files(discovery), checks))[i]
                == check_line(discovered_files(discovery)[i], checks[i]),
{
    let files = discovered_files(discovery);
    let outcomes = judged(files, checks);
    assert(!outcomes[failed].passed);
}

} // verus!
