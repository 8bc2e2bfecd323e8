//! A run in a world: what the machine does when the answers to its actions
//! come from a fixed description of what is outside.

use vstd::prelude::*;
use crate::args::{expects_output, inputs, output_of, role, Role};
use crate::failure::FailureView;
use crate::model::{ActionView, EventView, Phase, RunView};
use crate::text::Text;
use crate::usage::usage_text;

verus! {

/// What is outside a run, as far as a run can tell.
pub struct World {
    /// The paths that name an existing regular file.
    pub files: Set<Text>,
    /// What reading a path gives: the bytes of the file, or the text of an
    /// error.
    pub read: spec_fn(Text) -> Result<Seq<u8>, Text>,
    /// The text of the error with which creating the file at a path fails,
    /// if it does.
    pub open_error: spec_fn(Text) -> Option<Text>,
    /// The text of the error with which writing bytes to a target fails, if
    /// it does.
    pub write_error: spec_fn(Option<Text>, Seq<u8>) -> Option<Text>,
}

impl World {
    /// How the world answers an action.
    pub open spec fn answer(self, action: ActionView) -> EventView {
        match action {
            ActionView::CheckFile { path } => EventView::FileChecked {
                is_file: self.files.contains(path),
            },
            ActionView::ReadFile { path } => match (self.read)(path) {
                Ok(contents) => EventView::FileRead { contents },
                Err(error) => EventView::ReadFailed { error },
            },
            ActionView::Write { target, bytes } => if target is Some && (self.open_error)(
                target->Some_0,
            ) is Some {
                EventView::OpenFailed { error: (self.open_error)(target->Some_0)->Some_0 }
            } else if (self.write_error)(target, bytes) is Some {
                EventView::WriteFailed { error: (self.write_error)(target, bytes)->Some_0 }
            } else {
                EventView::Written
            },
            _ => EventView::Written,
        }
    }

    /// The world after the bytes have been written to the target: a file at
    /// the target path exists and holds them, whatever it held before.
    pub open spec fn after_write(self, target: Option<Text>, bytes: Seq<u8>) -> World {
        match target {
            Some(path) => World {
                files: self.files.insert(path),
                read: |p: Text|
                    if p == path {
                        Ok(bytes)
                    } else {
                        (self.read)(p)
                    },
                ..self
            },
            None => self,
        }
    }

    /// The bytes of the first `n` of the given files, one file after the
    /// other.
    pub open spec fn gather(self, paths: Seq<Text>, n: int) -> Seq<u8>
        decreases n,
    {
        if n <= 0 {
            Seq::empty()
        } else {
            self.gather(paths, n - 1) + (self.read)(paths[n - 1])->Ok_0
        }
    }

    /// The first of the given files, at or after `k`, that cannot be read, or
    /// the number of files if all can.
    pub open spec fn first_unreadable(self, paths: Seq<Text>, k: int) -> int
        decreases paths.len() - k,
    {
        if k < 0 || k >= paths.len() {
            paths.len() as int
        } else if (self.read)(paths[k]) is Err {
            k
        } else {
            self.first_unreadable(paths, k + 1)
        }
    }

    /// Reading the command line ends at token `i`: it is a help flag, or an
    /// input path that names no file.
    pub open spec fn halts(self, args: Seq<Text>, i: int) -> bool {
        role(args, i) == Role::Help || (role(args, i) == Role::Input && !self.files.contains(
            args[i],
        ))
    }

    /// The first token at or after `i` at which reading the command line
    /// ends, or the length of the list if there is none.
    pub open spec fn first_halt(self, args: Seq<Text>, i: int) -> int
        decreases args.len() - i,
    {
        if i < 0 || i >= args.len() {
            args.len() as int
        } else if self.halts(args, i) {
            i
        } else {
            self.first_halt(args, i + 1)
        }
    }
}

/// The state after the machine has taken `steps` answers from the world.
pub open spec fn run_for(state: RunView, world: World, steps: nat) -> RunView
    decreases steps,
{
    if steps == 0 {
        state
    } else {
        run_for(state.step(world.answer(state.pending())), world, (steps - 1) as nat)
    }
}

/// A number of steps after which a run is over, in any world.
pub open spec fn enough(state: RunView) -> nat {
    match state.phase {
        Phase::Parsing => (2 * state.args.len() - state.cursor + 1) as nat,
        Phase::Reading => (state.paths().len() - state.read + 1) as nat,
        Phase::Writing => 1,
        _ => 0,
    }
}

/// The state in which a run ends in a world.
pub open spec fn settle(state: RunView, world: World) -> RunView {
    run_for(state, world, enough(state))
}

/// How a run has ended.
pub enum Outcome {
    /// The usage text was shown.
    Help { text: Text },
    /// The run failed.
    Failed { failure: FailureView },
    /// The bytes were written to the target: the file at the path, or
    /// standard output.
    Written { target: Option<Text>, bytes: Seq<u8> },
}

/// How the run has ended, for a state in which it is over.
pub open spec fn outcome(state: RunView) -> Outcome {
    match state.phase {
        Phase::HelpDisplayed => Outcome::Help { text: usage_text(state.program) },
        Phase::Failed => Outcome::Failed { failure: state.failure->Some_0 },
        _ => Outcome::Written { target: state.output(), bytes: state.buffer },
    }
}

/// How a run ends in a world once the command line is read and gives the
/// inputs `paths` and the target `target`: the first input that cannot be
/// read is a failure; otherwise the bytes of all inputs, in the order given,
/// go to the target, and the run ends as the write does.
pub open spec fn delivered(paths: Seq<Text>, target: Option<Text>, world: World) -> Outcome {
    let stuck = world.first_unreadable(paths, 0);
    let bytes = world.gather(paths, paths.len() as int);
    if stuck < paths.len() {
        Outcome::Failed {
            failure: FailureView::ReadFailure {
                path: paths[stuck],
                error: (world.read)(paths[stuck])->Err_0,
            },
        }
    } else {
        match world.answer(ActionView::Write { target, bytes }) {
            EventView::OpenFailed { error } => Outcome::Failed {
                failure: FailureView::OutputOpenFailure { path: target->Some_0, error },
            },
            EventView::WriteFailed { error } => Outcome::Failed {
                failure: FailureView::WriteFailure { error },
            },
            _ => Outcome::Written { target, bytes },
        }
    }
}

/// How a run ends in a world when reading the command line goes on at token
/// `from`.
///
/// Reading the command line ends at the first help flag or at the first
/// input path that names no file. If there is neither, an `-o` without its
/// path is a failure, then a list without inputs. Then the inputs are read
/// and written.
pub open spec fn expected_from(program: Text, args: Seq<Text>, world: World, from: int) -> Outcome {
    let n = args.len() as int;
    let halt = world.first_halt(args, from);
    if halt < n {
        if role(args, halt) == Role::Help {
            Outcome::Help { text: usage_text(program) }
        } else {
            Outcome::Failed { failure: FailureView::InvalidInputPath { path: args[halt] } }
        }
    } else if expects_output(args, n) {
        Outcome::Failed { failure: FailureView::MissingOutputArgument }
    } else if inputs(args, n).len() == 0 {
        Outcome::Failed { failure: FailureView::NoInputFiles }
    } else {
        delivered(inputs(args, n), output_of(args, n), world)
    }
}

/// How a run on the given command line ends in a world, said at once.
pub open spec fn expected(program: Text, args: Seq<Text>, world: World) -> Outcome {
    expected_from(program, args, world, 0)
}

} // verus!
