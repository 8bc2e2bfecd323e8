//! Why a run fails, and what it then reports.

use vstd::prelude::*;
use vstd::string::*;
use vstd::std_specs::convert::{FromSpecImpl, IntoSpec};
use crate::text::Text;
use crate::usage::{usage, usage_text};

verus! {

/// A message that is either written in the program or put together at run
/// time. Both stand for the same thing: their characters.
#[derive(Debug)]
pub enum SomeStr {
    Literal(&'static str),
    Dynamic(String),
}

impl View for SomeStr {
    type V = Text;

    open spec fn view(&self) -> Text {
        match self {
            SomeStr::Literal(s) => s@,
            SomeStr::Dynamic(s) => s@,
        }
    }
}

impl SomeStr {
    /// The message as a string slice.
    pub fn as_str(&self) -> (s: &str)
        ensures
            s@ == self@,
    {
        match self {
            SomeStr::Literal(s) => s,
            SomeStr::Dynamic(s) => s.as_str(),
        }
    }

    /// The message as a string of its own.
    pub fn to_string(&self) -> (s: String)
        ensures
            s@ == self@,
    {
        String::from_str(self.as_str())
    }
}

impl From<&'static str> for SomeStr {
    fn from(value: &'static str) -> (s: SomeStr) {
        SomeStr::Literal(value)
    }
}

impl FromSpecImpl<&'static str> for SomeStr {
    open spec fn obeys_from_spec() -> bool {
        true
    }

    open spec fn from_spec(value: &'static str) -> SomeStr {
        SomeStr::Literal(value)
    }
}

impl From<String> for SomeStr {
    fn from(value: String) -> (s: SomeStr) {
        SomeStr::Dynamic(value)
    }
}

impl FromSpecImpl<String> for SomeStr {
    open spec fn obeys_from_spec() -> bool {
        true
    }

    open spec fn from_spec(value: String) -> SomeStr {
        SomeStr::Dynamic(value)
    }
}

/// What a failed run reports: a message, and whether the usage text follows it.
#[derive(Debug)]
pub struct RunFailure {
    pub error_message: SomeStr,
    pub display_usage: bool,
}

impl RunFailure {
    /// A failure with the given message.
    pub fn new<T: Into<SomeStr>>(message: T, should_display_usage: bool) -> (failure: RunFailure)
        ensures
            T::obeys_into_spec() ==> failure.error_message == message.into_spec(),
            failure.display_usage == should_display_usage,
    {
        RunFailure { error_message: message.into(), display_usage: should_display_usage }
    }
}

impl RunFailure {
    /// The text that is printed for this failure: the message behind
    /// `[ERROR] `, on a line of its own, and then the usage text if the
    /// failure asks for it.
    pub fn render(&self, program: &str) -> (text: String)
        ensures
            text@ == error_report(self.error_message@, self.display_usage, program@),
    {
        let mut text = String::from_str("[ERROR] ");
        text.append(self.error_message.as_str());
        text.append("\n");
        if self.display_usage {
            let help = usage(program);
            text.append(help.as_str());
        }
        assert(text@ =~= error_report(self.error_message@, self.display_usage, program@));
        text
    }
}

/// What is printed for a failure with the given message.
pub open spec fn error_report(message: Text, display_usage: bool, program: Text) -> Text {
    let line = "[ERROR] "@ + message + "\n"@;
    if display_usage {
        line + usage_text(program)
    } else {
        line
    }
}

/// The ways in which a run fails, each with what its message names.
#[derive(Debug, PartialEq, Eq)]
pub enum FailureKind {
    /// The command line names no file to read.
    NoInputFiles,
    /// The command line ends in an `-o` without a path behind it.
    MissingOutputArgument,
    /// An argument that should name a file to read names none.
    InvalidInputPath { path: String },
    /// A file to read could not be read.
    ReadFailure { path: String, error: String },
    /// The output file could not be created.
    OutputOpenFailure { path: String, error: String },
    /// The bytes could not be written.
    WriteFailure { error: String },
}

/// A failure as a mathematical value.
pub enum FailureView {
    NoInputFiles,
    MissingOutputArgument,
    InvalidInputPath { path: Text },
    ReadFailure { path: Text, error: Text },
    OutputOpenFailure { path: Text, error: Text },
    WriteFailure { error: Text },
}

impl FailureView {
    /// The message of each kind of failure.
    pub open spec fn message(self) -> Text {
        match self {
            FailureView::NoInputFiles => "At least one file must be provided!"@,
            FailureView::MissingOutputArgument =>
                "Was expecting an output path after `-o` but got nothing"@,
            FailureView::InvalidInputPath { path } => "Non-file passed in: "@ + path,
            FailureView::ReadFailure { path, error } => "Failed to read file `"@ + path + "`: "@
                + error,
            FailureView::OutputOpenFailure { path, error } => "Failed to open file `"@ + path
                + "`: "@ + error,
            FailureView::WriteFailure { error } => "Failed to write to output: "@ + error,
        }
    }

    /// Only a command line without input files is answered with the usage text.
    pub open spec fn shows_usage(self) -> bool {
        self is NoInputFiles
    }

    /// What is printed for this failure by a program of the given name.
    pub open spec fn report(self, program: Text) -> Text {
        error_report(self.message(), self.shows_usage(), program)
    }
}

impl View for FailureKind {
    type V = FailureView;

    open spec fn view(&self) -> FailureView {
        match self {
            FailureKind::NoInputFiles => FailureView::NoInputFiles,
            FailureKind::MissingOutputArgument => FailureView::MissingOutputArgument,
            FailureKind::InvalidInputPath { path } => FailureView::InvalidInputPath { path: path@ },
            FailureKind::ReadFailure { path, error } => FailureView::ReadFailure {
                path: path@,
                error: error@,
            },
            FailureKind::OutputOpenFailure { path, error } => FailureView::OutputOpenFailure {
                path: path@,
                error: error@,
            },
            FailureKind::WriteFailure { error } => FailureView::WriteFailure { error: error@ },
        }
    }
}

impl FailureKind {
    /// Whether the usage text follows the message of this failure.
    pub fn shows_usage(&self) -> (yes: bool)
        ensures
            yes == self@.shows_usage(),
    {
        match self {
            FailureKind::NoInputFiles => true,
            _ => false,
        }
    }

    /// The failure as it is reported: its message, and whether the usage text
    /// follows.
    pub fn report(&self) -> (failure: RunFailure)
        ensures
            failure.error_message@ == self@.message(),
            failure.display_usage == self@.shows_usage(),
    {
        match self {
            FailureKind::NoInputFiles => RunFailure::new(
                "At least one file must be provided!",
                true,
            ),
            FailureKind::MissingOutputArgument => RunFailure::new(
                "Was expecting an output path after `-o` but got nothing",
                false,
            ),
            FailureKind::InvalidInputPath { path } => {
                let mut message = String::from_str("Non-file passed in: ");
                message.append(path.as_str());
                RunFailure::new(message, false)
            },
            FailureKind::ReadFailure { path, error } => {
                let mut message = String::from_str("Failed to read file `");
                message.append(path.as_str());
                message.append("`: ");
                message.append(error.as_str());
                RunFailure::new(message, false)
            },
            FailureKind::OutputOpenFailure { path, error } => {
                let mut message = String::from_str("Failed to open file `");
                message.append(path.as_str());
                message.append("`: ");
                message.append(error.as_str());
                RunFailure::new(message, false)
            },
            FailureKind::WriteFailure { error } => {
                let mut message = String::from_str("Failed to write to output: ");
                message.append(error.as_str());
                RunFailure::new(message, false)
            },
        }
    }

    /// What is printed for this failure by a program of the given name.
    pub fn render(&self, program: &str) -> (text: String)
        ensures
            text@ == self@.report(program@),
    {
        self.report().render(program)
    }
}

} // verus!
