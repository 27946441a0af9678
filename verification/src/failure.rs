//! Why an operation did not produce its result.

use vstd::prelude::*;

verus! {

/// The three operations offered to the host.
#[derive(Clone, Copy, Debug, PartialEq, Eq, Structural)]
pub enum Operation {
    Run,
    Format,
    Validate,
}

/// A failed operation.
#[derive(Debug, PartialEq, Eq)]
pub enum Failure {
    /// The external tool could not be started; holds what the operating
    /// system said.
    Launch(String),
    /// The external tool ran and ended with a nonzero status; holds what it
    /// wrote to its standard error stream, unchanged.
    Tool(String),
    /// The files of a project could not be enumerated; holds the reason.
    Discovery(String),
}

/// The mathematical content of a [`Failure`].
pub enum FailureView {
    Launch(Seq<char>),
    Tool(Seq<char>),
    Discovery(Seq<char>),
}

impl View for Failure {
    type V = FailureView;

    open spec fn view(&self) -> FailureView {
        match self {
            Failure::Launch(message) => FailureView::Launch(message@),
            Failure::Tool(stderr) => FailureView::Tool(stderr@),
            Failure::Discovery(reason) => FailureView::Discovery(reason@),
        }
    }
}

impl FailureView {
    /// The text that the failure carries.
    pub open spec fn detail(self) -> Seq<char> {
        match self {
            FailureView::Launch(message) => message,
            FailureView::Tool(stderr) => stderr,
            FailureView::Discovery(reason) => reason,
        }
    }

    /// What stands before the detail when the failure is shown to a person.
    /// Formatting has wording of its own; the other operations share one.
    pub open spec fn prefix(self, operation: Operation) -> Seq<char> {
        match self {
            FailureView::Discovery(_) => "Error finding KCL files: "@,
            FailureView::Launch(_) => if operation == Operation::Format {
                "Error executing kcl fmt: "@
            } else {
                "Error executing kcl: "@
            },
            FailureView::Tool(_) => if operation == Operation::Format {
                "KCL format failed: "@
            } else {
                "❌: "@
            },
        }
    }

    /// The failure as shown to a person: prefix, then detail.
    pub open spec fn describe(self, operation: Operation) -> Seq<char> {
        self.prefix(operation) + self.detail()
    }
}

/// The mathematical content of an operation's result.
pub open spec fn result_view(result: Result<String, Failure>) -> Result<Seq<char>, FailureView> {
    match result {
        Ok(text) => Ok(text@),
        Err(failure) => Err(failure@),
    }
}

impl Failure {
    /// The text that the failure carries.
    pub fn detail(&self) -> (text: &str)
        ensures
            text@ == self@.detail(),
    {
        match self {
            Failure::Launch(message) => message.as_str(),
            Failure::Tool(stderr) => stderr.as_str(),
            Failure::Discovery(reason) => reason.as_str(),
        }
    }

    /// Writes the failure for a person to read.
    pub fn describe(&self, operation: Operation) -> (text: String)
        ensures
            text@ == self@.describe(operation),
    {
        let formatting = match operation {
            Operation::Format => true,
            _ => false,
        };
        let prefix = match self {
            Failure::Discovery(_) => "Error finding KCL files: ",
            Failure::Launch(_) => if formatting {
                "Error executing kcl fmt: "
            } else {
                "Error executing kcl: "
            },
            Failure::Tool(_) => if formatting {
                "KCL format failed: "
            } else {
                "❌: "
            },
        };
        let mut text = String::from_str(prefix);
        text.append(self.detail());
        text
    }
}

} // verus!
