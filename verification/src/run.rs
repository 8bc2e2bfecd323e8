//! The executable run: a state, the events it takes and the actions it asks
//! for.

use vstd::prelude::*;
use vstd::string::*;
use crate::args::{classify, expects_output, inputs, lemma_next_stop, next_stop, output_of, Role};
use crate::buffer::write_contents;
use crate::failure::FailureKind;
use crate::model::{start, ActionView, EventView, Phase, RunView};
use crate::text::Text;
use crate::usage::usage;

verus! {

/// The characters of each string of a list.
pub open spec fn texts(strings: Seq<String>) -> Seq<Text> {
    Seq::new(strings.len(), |i: int| strings[i]@)
}

/// The characters of a string that may be missing.
pub open spec fn text_of(string: Option<String>) -> Option<Text> {
    match string {
        Some(s) => Some(s@),
        None => None,
    }
}

/// What comes back from outside, in answer to an action.
#[derive(Debug, PartialEq, Eq)]
pub enum Event {
    /// Whether the path asked about names an existing regular file.
    FileChecked(bool),
    /// The bytes of the file asked for.
    FileRead(Vec<u8>),
    /// Why the file asked for could not be read.
    ReadFailed(String),
    /// All bytes were written.
    Written,
    /// Why the output file could not be created.
    OpenFailed(String),
    /// Why the bytes could not be written.
    WriteFailed(String),
}

impl View for Event {
    type V = EventView;

    open spec fn view(&self) -> EventView {
        match self {
            Event::FileChecked(is_file) => EventView::FileChecked { is_file: *is_file },
            Event::FileRead(contents) => EventView::FileRead { contents: contents@ },
            Event::ReadFailed(error) => EventView::ReadFailed { error: error@ },
            Event::Written => EventView::Written,
            Event::OpenFailed(error) => EventView::OpenFailed { error: error@ },
            Event::WriteFailed(error) => EventView::WriteFailed { error: error@ },
        }
    }
}

/// What a run asks for, or how it ends.
#[derive(Debug, PartialEq, Eq)]
pub enum Action<'a> {
    /// Tell whether this path names an existing regular file, with
    /// `Event::FileChecked`.
    CheckFile(&'a str),
    /// Read this file whole, and answer with `Event::FileRead` or
    /// `Event::ReadFailed`.
    ReadFile(&'a str),
    /// Write these bytes, all of them and once: to the file at the target
    /// path, created or emptied first, or to standard output if there is no
    /// target. Answer with `Event::Written`, `Event::OpenFailed` or
    /// `Event::WriteFailed`.
    Write { target: Option<&'a str>, bytes: &'a [u8] },
    /// Print this text to standard output and end with success.
    ShowUsage(String),
    /// Print this text to standard error and end with failure.
    Fail(String),
    /// End with success.
    Finish,
}

impl<'a> View for Action<'a> {
    type V = ActionView;

    open spec fn view(&self) -> ActionView {
        match self {
            Action::CheckFile(path) => ActionView::CheckFile { path: path@ },
            Action::ReadFile(path) => ActionView::ReadFile { path: path@ },
            Action::Write { target, bytes } => ActionView::Write {
                target: match target {
                    Some(path) => Some(path@),
                    None => None,
                },
                bytes: bytes@,
            },
            Action::ShowUsage(text) => ActionView::ShowUsage { text: text@ },
            Action::Fail(text) => ActionView::Fail { text: text@ },
            Action::Finish => ActionView::Finish,
        }
    }
}

/// Reads the command line from token `from` to the next stop, keeping the
/// last output path met on the way. Returns the stop, and whether an `-o` is
/// still waiting for its path there.
fn scan(args: &Vec<String>, from: usize, output_path: &mut Option<String>) -> (found: (usize, bool))
    requires
        from <= args.len(),
        !expects_output(texts(args@), from as int),
        text_of(*old(output_path)) == output_of(texts(args@), from as int),
    ensures
        found.0 == next_stop(texts(args@), from as int),
        found.1 == expects_output(texts(args@), found.0 as int),
        text_of(*final(output_path)) == output_of(texts(args@), found.0 as int),
{
    let ghost tokens = texts(args@);
    let mut i: usize = from;
    let mut expecting = false;
    let mut stopped = false;
    while i < args.len() && !stopped
        invariant
            from <= i <= args.len(),
            tokens == texts(args@),
            expecting == expects_output(tokens, i as int),
            next_stop(tokens, i as int) == next_stop(tokens, from as int),
            text_of(*output_path) == output_of(tokens, i as int),
            stopped ==> next_stop(tokens, i as int) == i,
        decreases args.len() - i + if stopped { 0int } else { 1int },
    {
        assert(tokens[i as int] == args@[i as int]@);
        match classify(args[i].as_str(), expecting) {
            Role::OutputPath => {
                *output_path = Some(args[i].clone());
                expecting = false;
                i += 1;
            },
            Role::OutputFlag => {
                expecting = true;
                i += 1;
            },
            Role::Help | Role::Input => {
                stopped = true;
            },
        }
    }
    (i, expecting)
}

/// A run of the program, from its command line to its end.
#[derive(Debug)]
pub struct Run {
    program: String,
    args: Vec<String>,
    phase: Phase,
    cursor: usize,
    output_path: Option<String>,
    paths: Vec<String>,
    read: usize,
    buffer: Vec<u8>,
    failure: Option<FailureKind>,
}

impl View for Run {
    type V = RunView;

    closed spec fn view(&self) -> RunView {
        RunView {
            program: self.program@,
            args: texts(self.args@),
            phase: self.phase,
            cursor: self.cursor as int,
            read: self.read as int,
            buffer: self.buffer@,
            failure: match self.failure {
                Some(failure) => Some(failure@),
                None => None,
            },
        }
    }
}

impl Run {
    /// The paths and the output path held are those that the first `n`
    /// tokens give.
    spec fn holds(&self, n: int) -> bool {
        &&& texts(self.paths@) == inputs(texts(self.args@), n)
        &&& text_of(self.output_path) == output_of(texts(self.args@), n)
    }

    /// The state is one that a run can be in.
    pub closed spec fn wf(&self) -> bool {
        &&& self@.wf()
        &&& self.holds(self.cursor as int)
    }

    /// The mathematical state of a run is one that a run can be in.
    pub proof fn lemma_view_wf(&self)
        requires
            self.wf(),
        ensures
            self@.wf(),
    {
    }

    /// Goes on reading the command line at token `from`, and settles in the
    /// state that the next stop gives.
    fn advance(&mut self, from: usize)
        requires
            from <= old(self).args.len(),
            !expects_output(texts(old(self).args@), from as int),
            old(self).holds(from as int),
            old(self).read == 0,
            old(self).failure is None,
        ensures
            final(self)@ == old(self)@.arrive(next_stop(texts(old(self).args@), from as int)),
            final(self).wf(),
    {
        let ghost tokens = texts(self.args@);
        proof {
            lemma_next_stop(tokens, from as int);
        }
        let (stop, expecting) = scan(&self.args, from, &mut self.output_path);
        self.cursor = stop;
        if stop < self.args.len() {
            assert(tokens[stop as int] == self.args@[stop as int]@);
            match classify(self.args[stop].as_str(), expecting) {
                Role::Help => {
                    self.phase = Phase::HelpDisplayed;
                },
                _ => {
                    self.phase = Phase::Parsing;
                },
            }
        } else if expecting {
            self.phase = Phase::Failed;
            self.failure = Some(FailureKind::MissingOutputArgument);
        } else if self.paths.len() == 0 {
            self.phase = Phase::Failed;
            self.failure = Some(FailureKind::NoInputFiles);
        } else {
            self.phase = Phase::Reading;
        }
    }

    /// Starts a run of the program `program` on the arguments `args`, which
    /// are those behind the program name.
    pub fn start(program: String, args: Vec<String>) -> (run: Run)
        ensures
            run.wf(),
            run@ == start(program@, texts(args@)),
    {
        let mut run = Run {
            program,
            args,
            phase: Phase::Parsing,
            cursor: 0,
            output_path: None,
            paths: Vec::new(),
            read: 0,
            buffer: Vec::with_capacity(1024),
            failure: None,
        };
        assert(texts(run.paths@) =~= inputs(texts(run.args@), 0));
        run.advance(0);
        run
    }

    /// Takes an event and moves to the next state. Returns whether the event
    /// answered what the state asked for; one that did not changes nothing.
    pub fn step(&mut self, event: Event) -> (accepted: bool)
        requires
            old(self).wf(),
        ensures
            final(self).wf(),
            final(self)@ == old(self)@.step(event@),
            accepted == old(self)@.awaits(event@),
    {
        let ghost tokens = texts(self.args@);
        assert(tokens.len() == self.args.len());
        assert(texts(self.paths@).len() == self.paths.len());
        match self.phase {
            Phase::Parsing => match event {
                Event::FileChecked(is_file) => {
                    assert(tokens[self.cursor as int] == self.args@[self.cursor as int]@);
                    let path = self.args[self.cursor].clone();
                    if is_file {
                        self.paths.push(path);
                        assert(texts(self.paths@) =~= inputs(tokens, self.cursor + 1));
                        let from = self.cursor + 1;
                        self.advance(from);
                    } else {
                        self.phase = Phase::Failed;
                        self.failure = Some(FailureKind::InvalidInputPath { path });
                    }
                    true
                },
                _ => false,
            },
            Phase::Reading => match event {
                Event::FileRead(contents) => {
                    write_contents(&mut self.buffer, contents.as_slice());
                    self.read = self.read + 1;
                    if self.read == self.paths.len() {
                        self.phase = Phase::Writing;
                    }
                    true
                },
                Event::ReadFailed(error) => {
                    let path = self.paths[self.read].clone();
                    self.phase = Phase::Failed;
                    self.failure = Some(FailureKind::ReadFailure { path, error });
                    true
                },
                _ => false,
            },
            Phase::Writing => match event {
                Event::Written => {
                    self.phase = Phase::Done;
                    true
                },
                Event::OpenFailed(error) => match &self.output_path {
                    Some(target) => {
                        let path = target.clone();
                        self.phase = Phase::Failed;
                        self.failure = Some(FailureKind::OutputOpenFailure { path, error });
                        true
                    },
                    None => false,
                },
                Event::WriteFailed(error) => {
                    self.phase = Phase::Failed;
                    self.failure = Some(FailureKind::WriteFailure { error });
                    true
                },
                _ => false,
            },
            _ => false,
        }
    }

    /// What the run asks for in its state, or how it ends. The answer to an
    /// action is the event for the next `step`; after `ShowUsage`, `Fail` and
    /// `Finish` there is none.
    pub fn action(&self) -> (action: Action<'_>)
        requires
            self.wf(),
        ensures
            action@ == self@.pending(),
    {
        let ghost tokens = texts(self.args@);
        match self.phase {
            Phase::Parsing => {
                assert(tokens[self.cursor as int] == self.args@[self.cursor as int]@);
                Action::CheckFile(self.args[self.cursor].as_str())
            },
            Phase::Reading => {
                assert(texts(self.paths@)[self.read as int] == self.paths@[self.read as int]@);
                Action::ReadFile(self.paths[self.read].as_str())
            },
            Phase::Writing => Action::Write {
                target: match &self.output_path {
                    Some(path) => Some(path.as_str()),
                    None => None,
                },
                bytes: self.buffer.as_slice(),
            },
            Phase::HelpDisplayed => Action::ShowUsage(usage(self.program.as_str())),
            Phase::Done => Action::Finish,
            Phase::Failed => match &self.failure {
                Some(failure) => Action::Fail(failure.render(self.program.as_str())),
                None => Action::Finish,
            },
        }
    }

    /// Where the run stands.
    pub fn phase(&self) -> (phase: Phase)
        ensures
            phase == self@.phase,
    {
        self.phase
    }

    /// Whether the run has ended, with success or without.
    pub fn is_over(&self) -> (over: bool)
        ensures
            over == self@.is_over(),
    {
        match self.phase {
            Phase::HelpDisplayed | Phase::Done | Phase::Failed => true,
            _ => false,
        }
    }

    /// Why the run failed, if it has.
    pub fn failure(&self) -> (failure: Option<&FailureKind>)
        ensures
            match failure {
                Some(kind) => self@.failure == Some(kind@),
                None => self@.failure is None,
            },
    {
        self.failure.as_ref()
    }

    /// The output path that the command line has given so far.
    pub fn output_path(&self) -> (path: Option<&str>)
        requires
            self.wf(),
        ensures
            match path {
                Some(path) => self@.output() == Some(path@),
                None => self@.output() is None,
            },
    {
        match &self.output_path {
            Some(path) => Some(path.as_str()),
            None => None,
        }
    }

    /// The input paths that the command line has given so far, each found to
    /// name a file.
    pub fn input_paths(&self) -> (paths: &Vec<String>)
        requires
            self.wf(),
        ensures
            texts(paths@) == self@.paths(),
    {
        &self.paths
    }

    /// The bytes of the input files read so far.
    pub fn buffer(&self) -> (bytes: &[u8])
        ensures
            bytes@ == self@.buffer,
    {
        self.buffer.as_slice()
    }
}

} // verus!
