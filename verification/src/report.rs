//! The outcome of checking each file of a project, and the report that
//! sums the outcomes up.

use vstd::prelude::*;

use crate::invocation::{Launch, LaunchView};
use crate::text::{decimal, decimal_text, followed_by, join, joined};

verus! {

/// What checking one file gave: the file, whether it passed, and, where it
/// did not, the reason.
#[derive(Debug, PartialEq, Eq)]
pub struct FileOutcome {
    pub file: String,
    pub passed: bool,
    pub detail: String,
}

/// The mathematical content of a [`FileOutcome`].
pub struct FileOutcomeView {
    pub file: Seq<char>,
    pub passed: bool,
    pub detail: Seq<char>,
}

impl View for FileOutcome {
    type V = FileOutcomeView;

    open spec fn view(&self) -> FileOutcomeView {
        FileOutcomeView { file: self.file@, passed: self.passed, detail: self.detail@ }
    }
}

impl DeepView for FileOutcome {
    type V = FileOutcomeView;

    open spec fn deep_view(&self) -> FileOutcomeView {
        self@
    }
}

/// How the end of a checking call is judged. Exit code zero passes the
/// file. Any other end fails it with the captured standard error as the
/// reason. A call that did not start fails it too, with a reason that is
/// marked as an execution error, so that it can be told from the tool's
/// own verdict.
pub open spec fn file_outcome(file: Seq<char>, launch: LaunchView) -> FileOutcomeView {
    match launch {
        LaunchView::Completed(result) => if result.success() {
            FileOutcomeView { file, passed: true, detail: Seq::empty() }
        } else {
            FileOutcomeView { file, passed: false, detail: result.stderr }
        },
        LaunchView::Failed(message) => FileOutcomeView {
            file,
            passed: false,
            detail: "Execution error: "@ + message,
        },
    }
}

/// The report's line for one file.
pub open spec fn outcome_line(outcome: FileOutcomeView) -> Seq<char> {
    if outcome.passed {
        "✅ "@ + outcome.file
    } else {
        "❌ "@ + outcome.file + ": "@ + outcome.detail
    }
}

/// Whether every file passed.
pub open spec fn all_passed(outcomes: Seq<FileOutcomeView>) -> bool {
    forall|i: int| 0 <= i < outcomes.len() ==> (#[trigger] outcomes[i]).passed
}

/// The report's first line: how many files are valid when all are, else
/// that there were errors.
pub open spec fn report_header(outcomes: Seq<FileOutcomeView>) -> Seq<char> {
    if all_passed(outcomes) {
        "✅ All "@ + decimal(outcomes.len()) + " files are valid"@
    } else {
        "❌ Errors found in some files"@
    }
}

/// The report's lines for the files, one each, in the order of `outcomes`.
pub open spec fn report_lines(outcomes: Seq<FileOutcomeView>) -> Seq<Seq<char>> {
    Seq::new(outcomes.len(), |i: int| outcome_line(outcomes[i]))
}

/// The whole report: the header, an empty line, and the files' lines.
pub open spec fn report_text(outcomes: Seq<FileOutcomeView>) -> Seq<char> {
    report_header(outcomes) + "\n\n"@ + joined(report_lines(outcomes), "\n"@)
}

/// A file that fails carries a reason wherever there is one to give: the
/// reason is never empty for a check that did not start, and for a check
/// that ended without exit code zero it is empty only where the tool
/// wrote nothing to its standard error stream.
pub proof fn lemma_failure_carries_its_reason(file: Seq<char>, launch: LaunchView)
    requires
        !(launch matches LaunchView::Completed(result) && result.success()),
    ensures
        !file_outcome(file, launch).passed,
        launch matches LaunchView::Failed(_) ==> file_outcome(file, launch).detail.len() > 0,
        launch matches LaunchView::Completed(result) ==> file_outcome(file, launch).detail
            == result.stderr,
        outcome_line(file_outcome(file, launch)) == "❌ "@ + file + ": "@ + file_outcome(
            file,
            launch,
        ).detail,
{
    reveal_strlit("Execution error: ");
}

/// Judges the end of the checking call for `file`.
pub fn judge(file: &str, launch: &Launch) -> (outcome: FileOutcome)
    ensures
        outcome@ == file_outcome(file@, launch@),
{
    match launch {
        Launch::Completed(result) => {
            if result.success() {
                FileOutcome { file: String::from_str(file), passed: true, detail: String::new() }
            } else {
                FileOutcome {
                    file: String::from_str(file),
                    passed: false,
                    detail: result.stderr.clone(),
                }
            }
        },
        Launch::Failed(message) => FileOutcome {
            file: String::from_str(file),
            passed: false,
            detail: followed_by("Execution error: ", message.as_str()),
        },
    }
}

impl FileOutcome {
    /// Writes the report's line for this file.
    pub fn line(&self) -> (text: String)
        ensures
            text@ == outcome_line(self@),
    {
        if self.passed {
            followed_by("✅ ", self.file.as_str())
        } else {
            let mut text = followed_by("❌ ", self.file.as_str());
            text.append(": ");
            text.append(self.detail.as_str());
            text
        }
    }
}

/// The outcomes of the files examined so far, in the order in which they
/// were examined, with a flag that tells whether all of them passed.
#[derive(Debug, PartialEq, Eq)]
pub struct ValidationReport {
    outcomes: Vec<FileOutcome>,
    all_valid: bool,
}

impl View for ValidationReport {
    type V = Seq<FileOutcomeView>;

    closed spec fn view(&self) -> Seq<FileOutcomeView> {
        self.outcomes.deep_view()
    }
}

impl ValidationReport {
    /// The flag agrees with the outcomes.
    pub closed spec fn wf(&self) -> bool {
        self.all_valid == all_passed(self@)
    }

    /// A report on no files.
    pub fn new() -> (report: ValidationReport)
        ensures
            report.wf(),
            report@ == Seq::<FileOutcomeView>::empty(),
    {
        let report = ValidationReport { outcomes: Vec::new(), all_valid: true };
        assert(report@ =~= Seq::<FileOutcomeView>::empty());
        report
    }

    /// Adds the outcome of the next file.
    pub fn record(&mut self, outcome: FileOutcome)
        requires
            old(self).wf(),
        ensures
            final(self).wf(),
            final(self)@ == old(self)@.push(outcome@),
    {
        let ghost before = self@;
        let ghost added = outcome@;
        if !outcome.passed {
            self.all_valid = false;
        }
        self.outcomes.push(outcome);
        proof {
            let after = self@;
            assert(after =~= before.push(added));
            if all_passed(before) && added.passed {
                assert forall|i: int| 0 <= i < after.len() implies (#[trigger] after[i]).passed by {
                    if i < before.len() {
                        assert(after[i] == before[i]);
                    }
                }
            } else if !added.passed {
                assert(!after[before.len() as int].passed);
            } else {
                let bad = choose|i: int| 0 <= i < before.len() && !(#[trigger] before[i]).passed;
                assert(after[bad] == before[bad]);
            }
        }
    }

    /// How many files were examined.
    pub fn count(&self) -> (n: usize)
        ensures
            n == self@.len(),
    {
        self.outcomes.len()
    }

    /// Whether every file examined passed.
    pub fn all_valid(&self) -> (ok: bool)
        requires
            self.wf(),
        ensures
            ok == all_passed(self@),
    {
        self.all_valid
    }

    /// The outcome of the file examined at position `index`, if so many
    /// files were examined.
    pub fn outcome(&self, index: usize) -> (outcome: Option<&FileOutcome>)
        ensures
            match outcome {
                Some(found) => index < self@.len() && found@ == self@[index as int],
                None => index >= self@.len(),
            },
    {
        if index < self.outcomes.len() {
            Some(&self.outcomes[index])
        } else {
            None
        }
    }

    /// Writes the report.
    pub fn render(&self) -> (text: String)
        requires
            self.wf(),
        ensures
            text@ == report_text(self@),
    {
        let mut lines: Vec<String> = Vec::new();
        let mut i: usize = 0;
        while i < self.outcomes.len()
            invariant
                i <= self.outcomes.len(),
                lines.len() == i,
                forall|j: int| 0 <= j < i ==> lines[j]@ == outcome_line(self@[j]),
            decreases self.outcomes.len() - i,
        {
            lines.push(self.outcomes[i].line());
            i += 1;
        }
        assert(lines.deep_view() =~= report_lines(self@));
        let mut text = if self.all_valid {
            let mut header = followed_by("✅ All ", decimal_text(self.outcomes.len()).as_str());
            header.append(" files are valid");
            header
        } else {
            String::from_str("❌ Errors found in some files")
        };
        text.append("\n\n");
        text.append(join(&lines, "\n").as_str());
        text
    }
}

} // verus!
