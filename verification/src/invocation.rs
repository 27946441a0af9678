//! The data that crosses the boundary to the operating system: what to
//! start, and what came back.

use vstd::prelude::*;
use vstd::utf8::{decode_utf8, valid_utf8};

use crate::text::text_of;

verus! {

/// A program and the arguments it is started with.
#[derive(Debug, PartialEq, Eq)]
pub struct CommandLine {
    pub program: String,
    pub arguments: Vec<String>,
}

/// The mathematical content of a [`CommandLine`].
pub struct CommandLineView {
    pub program: Seq<char>,
    pub arguments: Seq<Seq<char>>,
}

impl View for CommandLine {
    type V = CommandLineView;

    open spec fn view(&self) -> CommandLineView {
        CommandLineView { program: self.program@, arguments: self.arguments.deep_view() }
    }
}

/// One call of the external tool: the executable, its subcommand, the file
/// it works on, the two optional flags and the definitions handed to it.
#[derive(Debug, PartialEq, Eq)]
pub struct InvocationSpec {
    pub executable: String,
    pub subcommand: String,
    pub file: String,
    pub format: Option<String>,
    pub output: Option<String>,
    pub definitions: Vec<String>,
}

/// The mathematical content of an [`InvocationSpec`].
pub struct InvocationSpecView {
    pub executable: Seq<char>,
    pub subcommand: Seq<char>,
    pub file: Seq<char>,
    pub format: Option<Seq<char>>,
    pub output: Option<Seq<char>>,
    pub definitions: Seq<Seq<char>>,
}

impl View for InvocationSpec {
    type V = InvocationSpecView;

    open spec fn view(&self) -> InvocationSpecView {
        InvocationSpecView {
            executable: self.executable@,
            subcommand: self.subcommand@,
            file: self.file@,
            format: text_of(self.format),
            output: text_of(self.output),
            definitions: self.definitions.deep_view(),
        }
    }
}

/// `flag` followed by `value`, or nothing where there is no value.
pub open spec fn optional_flag(flag: Seq<char>, value: Option<Seq<char>>) -> Seq<Seq<char>> {
    match value {
        Some(text) => seq![flag, text],
        None => Seq::empty(),
    }
}

/// `flag` before each of `values`, in their order.
pub open spec fn repeated_flag(flag: Seq<char>, values: Seq<Seq<char>>) -> Seq<Seq<char>>
    decreases values.len(),
{
    if values.len() == 0 {
        Seq::empty()
    } else {
        repeated_flag(flag, values.drop_last()).push(flag).push(values.last())
    }
}

impl InvocationSpecView {
    /// The argument list of the call: subcommand, file, the format flag,
    /// one `-D` per definition, and the output flag last.
    pub open spec fn arguments(self) -> Seq<Seq<char>> {
        seq![self.subcommand, self.file] + optional_flag("--format"@, self.format) + repeated_flag(
            "-D"@,
            self.definitions,
        ) + optional_flag("-o"@, self.output)
    }

    /// The command line that performs the call.
    pub open spec fn command_line(self) -> CommandLineView {
        CommandLineView { program: self.executable, arguments: self.arguments() }
    }
}

impl InvocationSpec {
    /// Lays the call out as a program and its argument list.
    pub fn command_line(&self) -> (line: CommandLine)
        ensures
            line@ == self@.command_line(),
    {
        let mut arguments: Vec<String> = Vec::new();
        arguments.push(self.subcommand.clone());
        arguments.push(self.file.clone());
        assert(arguments.deep_view() =~= seq![self@.subcommand, self@.file]);
        match &self.format {
            Some(format) => {
                let ghost before = arguments.deep_view();
                arguments.push(String::from_str("--format"));
                arguments.push(format.clone());
                assert(arguments.deep_view() =~= before + optional_flag(
                    "--format"@,
                    self@.format,
                ));
            },
            None => {
                assert(arguments.deep_view() =~= arguments.deep_view() + optional_flag(
                    "--format"@,
                    self@.format,
                ));
            },
        }
        let ghost head = arguments.deep_view();
        let mut i: usize = 0;
        assert(self@.definitions.take(0) =~= Seq::<Seq<char>>::empty());
        assert(head + repeated_flag("-D"@, Seq::<Seq<char>>::empty()) =~= head);
        while i < self.definitions.len()
            invariant
                i <= self.definitions.len(),
                arguments.deep_view() == head + repeated_flag(
                    "-D"@,
                    self@.definitions.take(i as int),
                ),
            decreases self.definitions.len() - i,
        {
            let ghost before = arguments.deep_view();
            arguments.push(String::from_str("-D"));
            arguments.push(self.definitions[i].clone());
            proof {
                let done = self@.definitions.take(i + 1);
                assert(done.drop_last() =~= self@.definitions.take(i as int));
                assert(done.last() == self.definitions[i as int]@);
                assert(arguments.deep_view() =~= before.push("-D"@).push(
                    self.definitions[i as int]@,
                ));
                assert(arguments.deep_view() =~= head + repeated_flag("-D"@, done));
            }
            i += 1;
        }
        assert(self@.definitions.take(i as int) =~= self@.definitions);
        match &self.output {
            Some(output) => {
                let ghost before = arguments.deep_view();
                arguments.push(String::from_str("-o"));
                arguments.push(output.clone());
                assert(arguments.deep_view() =~= before + optional_flag("-o"@, self@.output));
            },
            None => {
                assert(arguments.deep_view() =~= arguments.deep_view() + optional_flag(
                    "-o"@,
                    self@.output,
                ));
            },
        }
        CommandLine { program: self.executable.clone(), arguments }
    }
}

/// What a process left behind, as the operating system hands it over: its
/// exit code, if it ended with one, and the raw bytes of its two streams.
#[derive(Debug, PartialEq, Eq)]
pub struct Captured {
    pub exit_status: Option<i32>,
    pub stdout: Vec<u8>,
    pub stderr: Vec<u8>,
}

/// The result of one call that ran to its end: its exit code, if it ended
/// with one, and the text of its two streams.
#[derive(Debug, PartialEq, Eq)]
pub struct InvocationResult {
    pub exit_status: Option<i32>,
    pub stdout: String,
    pub stderr: String,
}

/// The mathematical content of an [`InvocationResult`].
pub struct InvocationResultView {
    pub exit_status: Option<i32>,
    pub stdout: Seq<char>,
    pub stderr: Seq<char>,
}

impl InvocationResultView {
    /// A call succeeded when its process ended with exit code zero.
    pub open spec fn success(self) -> bool {
        self.exit_status == Some(0i32)
    }
}

impl View for InvocationResult {
    type V = InvocationResultView;

    open spec fn view(&self) -> InvocationResultView {
        InvocationResultView {
            exit_status: self.exit_status,
            stdout: self.stdout@,
            stderr: self.stderr@,
        }
    }
}

impl InvocationResult {
    /// Whether the call succeeded.
    pub fn success(&self) -> (ok: bool)
        ensures
            ok == self@.success(),
    {
        match self.exit_status {
            Some(code) => code == 0,
            None => false,
        }
    }
}

/// The text that lossy UTF-8 decoding makes of `bytes`: what the bytes
/// encode, with the replacement character in place of each malformed part.
pub uninterp spec fn utf8_lossy(bytes: Seq<u8>) -> Seq<char>;

/// Calls `String::from_utf8_lossy` of the standard library. The result is a
/// function of the bytes alone, named [`utf8_lossy`]; for well-formed UTF-8
/// it is the text that the bytes encode.
#[verifier::external_body]
fn decode_lossy(bytes: &Vec<u8>) -> (text: String)
    ensures
        text@ == utf8_lossy(bytes@),
        valid_utf8(bytes@) ==> text@ == decode_utf8(bytes@),
{
    String::from_utf8_lossy(bytes).into_owned()
}

impl Captured {
    /// Reads the two streams as text, replacing what is not UTF-8.
    pub fn decode(&self) -> (result: InvocationResult)
        ensures
            result@ == (InvocationResultView {
                exit_status: self.exit_status,
                stdout: utf8_lossy(self.stdout@),
                stderr: utf8_lossy(self.stderr@),
            }),
    {
        InvocationResult {
            exit_status: self.exit_status,
            stdout: decode_lossy(&self.stdout),
            stderr: decode_lossy(&self.stderr),
        }
    }
}

/// How an attempt to run a command ended: the process ran to its end, or
/// it could not be started and the operating system said why.
#[derive(Debug, PartialEq, Eq)]
pub enum Launch {
    Completed(InvocationResult),
    Failed(String),
}

/// The mathematical content of a [`Launch`].
pub enum LaunchView {
    Completed(InvocationResultView),
    Failed(Seq<char>),
}

impl View for Launch {
    type V = LaunchView;

    open spec fn view(&self) -> LaunchView {
        match self {
            Launch::Completed(result) => LaunchView::Completed(result@),
            Launch::Failed(message) => LaunchView::Failed(message@),
        }
    }
}

} // verus!
