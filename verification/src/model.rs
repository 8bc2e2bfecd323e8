//! The run as a mathematical state machine.
//!
//! A run goes through its command line until it needs to know something from
//! outside: whether a path names a file, what a file holds, how the write
//! went. It then waits in a state that says what it needs, takes the answer
//! as an event, and goes on. Here the states, the events and the step from
//! one state to the next are defined on sequences; the executable machine is
//! proved against them.

use vstd::prelude::*;
use crate::args::{expects_output, inputs, next_stop, output_of, role, Role};
use crate::failure::FailureView;
use crate::text::Text;
use crate::usage::usage_text;

verus! {

/// Where a run stands.
#[derive(Clone, Copy, Debug, PartialEq, Eq, Structural)]
pub enum Phase {
    /// Reading the command line; stopped at an input path that has to be
    /// checked.
    Parsing,
    /// Reading the input files, one after the other.
    Reading,
    /// All files are read; the bytes have to be written.
    Writing,
    /// A help flag was met: the usage text is shown and the run is over.
    HelpDisplayed,
    /// The bytes are written and the run is over.
    Done,
    /// The run is over and has failed.
    Failed,
}

/// What comes back from outside.
pub enum EventView {
    /// The path asked about names a regular file, or does not.
    FileChecked { is_file: bool },
    /// The file asked for was read; these are its bytes.
    FileRead { contents: Seq<u8> },
    /// The file asked for could not be read.
    ReadFailed { error: Text },
    /// All bytes were written.
    Written,
    /// The output file could not be created.
    OpenFailed { error: Text },
    /// The bytes could not be written.
    WriteFailed { error: Text },
}

/// What a run asks for, or how it ends.
pub enum ActionView {
    /// Tell whether this path names an existing regular file.
    CheckFile { path: Text },
    /// Read this file whole.
    ReadFile { path: Text },
    /// Write these bytes, all of them and once: to the file at the target
    /// path, created or emptied first, or to standard output if there is no
    /// target.
    Write { target: Option<Text>, bytes: Seq<u8> },
    /// Print the usage text to standard output and end with success.
    ShowUsage { text: Text },
    /// Print the report to standard error and end with failure.
    Fail { text: Text },
    /// End with success.
    Finish,
}

/// The state of a run.
pub struct RunView {
    /// The name of the program, for the usage text.
    pub program: Text,
    /// The arguments behind the program name.
    pub args: Seq<Text>,
    pub phase: Phase,
    /// How far the command line is read: while parsing, the token that is
    /// being checked; at a help flag, that flag; afterwards all of it, unless
    /// the run failed on a token.
    pub cursor: int,
    /// How many input files are read.
    pub read: int,
    /// The bytes of the files read so far, in order.
    pub buffer: Seq<u8>,
    /// Why the run failed, once it has.
    pub failure: Option<FailureView>,
}

impl RunView {
    /// The input paths accepted so far.
    pub open spec fn paths(self) -> Seq<Text> {
        inputs(self.args, self.cursor)
    }

    /// The output path given so far.
    pub open spec fn output(self) -> Option<Text> {
        output_of(self.args, self.cursor)
    }

    /// No further event changes the state.
    pub open spec fn is_over(self) -> bool {
        self.phase == Phase::HelpDisplayed || self.phase == Phase::Done || self.phase
            == Phase::Failed
    }

    /// What holds of every state that a run can be in.
    pub open spec fn wf(self) -> bool {
        &&& 0 <= self.cursor <= self.args.len()
        &&& 0 <= self.read <= self.paths().len()
        &&& match self.phase {
            Phase::Parsing => {
                &&& self.cursor < self.args.len()
                &&& role(self.args, self.cursor) == Role::Input
                &&& self.read == 0
                &&& self.failure is None
            },
            Phase::HelpDisplayed => {
                &&& self.cursor < self.args.len()
                &&& role(self.args, self.cursor) == Role::Help
                &&& self.read == 0
                &&& self.failure is None
            },
            Phase::Reading => {
                &&& self.cursor == self.args.len()
                &&& !expects_output(self.args, self.cursor)
                &&& self.read < self.paths().len()
                &&& self.failure is None
            },
            Phase::Writing | Phase::Done => {
                &&& self.cursor == self.args.len()
                &&& !expects_output(self.args, self.cursor)
                &&& 0 < self.paths().len()
                &&& self.read == self.paths().len()
                &&& self.failure is None
            },
            Phase::Failed => self.failure is Some,
        }
    }

    /// The state in which the run ends with the given failure.
    pub open spec fn fail(self, failure: FailureView) -> RunView {
        RunView { phase: Phase::Failed, failure: Some(failure), ..self }
    }

    /// The state after the command line has been read up to `stop`, which is
    /// an input path, a help flag or the end of the list. At a help flag the
    /// run is over. At the end, an `-o` left without its path is a failure,
    /// and so is, after that, a list without input paths; otherwise reading
    /// begins.
    pub open spec fn arrive(self, stop: int) -> RunView {
        let at = RunView { cursor: stop, ..self };
        if stop < self.args.len() {
            if role(self.args, stop) == Role::Help {
                RunView { phase: Phase::HelpDisplayed, ..at }
            } else {
                RunView { phase: Phase::Parsing, ..at }
            }
        } else if expects_output(self.args, stop) {
            at.fail(FailureView::MissingOutputArgument)
        } else if inputs(self.args, stop).len() == 0 {
            at.fail(FailureView::NoInputFiles)
        } else {
            RunView { phase: Phase::Reading, ..at }
        }
    }

    /// The event answers what the state asks for.
    pub open spec fn awaits(self, event: EventView) -> bool {
        match self.phase {
            Phase::Parsing => event is FileChecked,
            Phase::Reading => event is FileRead || event is ReadFailed,
            Phase::Writing => event is Written || event is WriteFailed || (event is OpenFailed
                && self.output() is Some),
            _ => false,
        }
    }

    /// The state after an event. An event that does not answer what the state
    /// asks for changes nothing.
    pub open spec fn step(self, event: EventView) -> RunView {
        if !self.awaits(event) {
            self
        } else {
            match event {
                EventView::FileChecked { is_file } => if is_file {
                    self.arrive(next_stop(self.args, self.cursor + 1))
                } else {
                    self.fail(FailureView::InvalidInputPath { path: self.args[self.cursor] })
                },
                EventView::FileRead { contents } => RunView {
                    phase: if self.read + 1 == self.paths().len() {
                        Phase::Writing
                    } else {
                        Phase::Reading
                    },
                    read: self.read + 1,
                    buffer: self.buffer + contents,
                    ..self
                },
                EventView::ReadFailed { error } => self.fail(
                    FailureView::ReadFailure { path: self.paths()[self.read], error },
                ),
                EventView::Written => RunView { phase: Phase::Done, ..self },
                EventView::OpenFailed { error } => self.fail(
                    FailureView::OutputOpenFailure { path: self.output()->Some_0, error },
                ),
                EventView::WriteFailed { error } => self.fail(FailureView::WriteFailure { error }),
            }
        }
    }

    /// What the state asks for, or how the run ends in it.
    pub open spec fn pending(self) -> ActionView {
        match self.phase {
            Phase::Parsing => ActionView::CheckFile { path: self.args[self.cursor] },
            Phase::Reading => ActionView::ReadFile { path: self.paths()[self.read] },
            Phase::Writing => ActionView::Write { target: self.output(), bytes: self.buffer },
            Phase::HelpDisplayed => ActionView::ShowUsage { text: usage_text(self.program) },
            Phase::Done => ActionView::Finish,
            Phase::Failed => ActionView::Fail { text: self.failure->Some_0.report(self.program) },
        }
    }
}

/// The state in which a run starts: the command line read up to its first
/// stop, nothing read, nothing to write yet.
pub open spec fn start(program: Text, args: Seq<Text>) -> RunView {
    RunView {
        program,
        args,
        phase: Phase::Parsing,
        cursor: 0,
        read: 0,
        buffer: Seq::empty(),
        failure: None,
    }.arrive(next_stop(args, 0))
}

} // verus!
