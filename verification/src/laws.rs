//! What holds of every run.

use vstd::prelude::*;
use crate::args::{
    expects_output, inputs, lemma_next_stop, next_stop, output_of, plain, role, with_output,
    Role,
};
use crate::failure::FailureView;
use crate::model::{start, ActionView, EventView, Phase, RunView};
use crate::text::Text;
use crate::usage::usage_text;
use crate::world::{
    delivered, enough, expected, expected_from, outcome, run_for, settle, Outcome, World,
};

verus! {

/// Among the first `n` tokens there are at most `n` input paths.
proof fn lemma_inputs_len(args: Seq<Text>, n: int)
    requires
        0 <= n,
    ensures
        inputs(args, n).len() <= n,
    decreases n,
{
    if n > 0 {
        lemma_inputs_len(args, n - 1);
    }
}

/// A reader that stops where `next_stop` says settles in a state that a run
/// can be in.
proof fn lemma_arrive_wf(state: RunView, from: int)
    requires
        0 <= from <= state.args.len(),
        state.read == 0,
        state.failure is None,
    ensures
        state.arrive(next_stop(state.args, from)).wf(),
{
    lemma_next_stop(state.args, from);
    lemma_inputs_len(state.args, next_stop(state.args, from));
}

/// A run starts in a state that a run can be in.
pub proof fn law_start_wf(program: Text, args: Seq<Text>)
    ensures
        start(program, args).wf(),
{
    let first = RunView {
        program,
        args,
        phase: Phase::Parsing,
        cursor: 0,
        read: 0,
        buffer: Seq::empty(),
        failure: None,
    };
    lemma_arrive_wf(first, 0);
}

/// Whatever the event, a step leads from a state that a run can be in to
/// another such state.
pub proof fn law_step_wf(state: RunView, event: EventView)
    requires
        state.wf(),
    ensures
        state.step(event).wf(),
{
    if state.awaits(event) && state.phase == Phase::Parsing && event == (EventView::FileChecked {
        is_file: true,
    }) {
        lemma_arrive_wf(state, state.cursor + 1);
    }
}

/// Once a run is over, nothing changes its state.
pub proof fn law_over_is_final(state: RunView, event: EventView)
    requires
        state.is_over(),
    ensures
        state.step(event) == state,
{
}

/// Every answer of the world brings a run that is not over nearer to its end.
proof fn lemma_step_decreases(state: RunView, world: World)
    requires
        state.wf(),
        !state.is_over(),
    ensures
        enough(state.step(world.answer(state.pending()))) < enough(state),
        state.awaits(world.answer(state.pending())),
{
    let next = state.step(world.answer(state.pending()));
    if state.phase == Phase::Parsing {
        lemma_next_stop(state.args, state.cursor + 1);
        lemma_inputs_len(state.args, state.args.len() as int);
        lemma_inputs_len(state.args, next.cursor);
    }
}

/// A run that is over stays where it is, however many steps follow.
proof fn lemma_over_stays(state: RunView, world: World, steps: nat)
    requires
        state.is_over(),
    ensures
        run_for(state, world, steps) == state,
    decreases steps,
{
    if steps > 0 {
        lemma_over_stays(state, world, (steps - 1) as nat);
    }
}

/// After enough steps a run has settled: more steps change nothing.
proof fn lemma_run_for_settles(state: RunView, world: World, steps: nat)
    requires
        state.wf(),
        steps >= enough(state),
    ensures
        run_for(state, world, steps) == settle(state, world),
        settle(state, world).is_over(),
        settle(state, world).wf(),
    decreases enough(state),
{
    if state.is_over() {
        lemma_over_stays(state, world, steps);
    } else {
        let next = state.step(world.answer(state.pending()));
        lemma_step_decreases(state, world);
        law_step_wf(state, world.answer(state.pending()));
        lemma_run_for_settles(next, world, (steps - 1) as nat);
        lemma_run_for_settles(next, world, (enough(state) - 1) as nat);
    }
}

/// In any world, a run ends: from its start it reaches a state in which it
/// is over, and stays there.
pub proof fn law_run_ends(program: Text, args: Seq<Text>, world: World, steps: nat)
    requires
        steps >= enough(start(program, args)),
    ensures
        settle(start(program, args), world).is_over(),
        run_for(start(program, args), world, steps) == settle(start(program, args), world),
{
    law_start_wf(program, args);
    lemma_run_for_settles(start(program, args), world, steps);
}

/// A run that is not over ends as the state after the world's next answer
/// does.
proof fn lemma_settle_step(state: RunView, world: World)
    requires
        state.wf(),
        !state.is_over(),
    ensures
        settle(state, world) == settle(state.step(world.answer(state.pending())), world),
{
    let next = state.step(world.answer(state.pending()));
    lemma_step_decreases(state, world);
    law_step_wf(state, world.answer(state.pending()));
    lemma_run_for_settles(next, world, (enough(state) - 1) as nat);
}

/// No token between a place and the next stop ends the reading of the
/// command line.
proof fn lemma_first_halt_skips(world: World, args: Seq<Text>, i: int)
    requires
        0 <= i <= args.len(),
    ensures
        world.first_halt(args, i) == world.first_halt(args, next_stop(args, i)),
    decreases args.len() - i,
{
    if i < args.len() && role(args, i) != Role::Input && role(args, i) != Role::Help {
        lemma_first_halt_skips(world, args, i + 1);
    }
}

/// A run that is reading its inputs, and holds the bytes of those read so
/// far, ends as `delivered` says.
proof fn lemma_reading(state: RunView, world: World)
    requires
        state.wf(),
        state.phase == Phase::Reading || state.phase == Phase::Writing,
        state.buffer == world.gather(state.paths(), state.read),
        world.first_unreadable(state.paths(), state.read) == world.first_unreadable(
            state.paths(),
            0,
        ),
    ensures
        outcome(settle(state, world)) == delivered(state.paths(), state.output(), world),
    decreases state.paths().len() - state.read,
{
    let next = state.step(world.answer(state.pending()));
    lemma_settle_step(state, world);
    law_step_wf(state, world.answer(state.pending()));
    if state.phase == Phase::Reading && (world.read)(state.paths()[state.read]) is Ok {
        lemma_reading(next, world);
    }
}

/// A run whose reader goes on at token `from`, with nothing read yet, ends
/// as `expected_from` says.
proof fn lemma_parsing(state: RunView, world: World, from: int)
    requires
        0 <= from <= state.args.len(),
        state.read == 0,
        state.failure is None,
        state.buffer == Seq::<u8>::empty(),
    ensures
        outcome(settle(state.arrive(next_stop(state.args, from)), world)) == expected_from(
            state.program,
            state.args,
            world,
            from,
        ),
    decreases state.args.len() - from,
{
    let stop = next_stop(state.args, from);
    let arrived = state.arrive(stop);
    lemma_next_stop(state.args, from);
    lemma_arrive_wf(state, from);
    lemma_first_halt_skips(world, state.args, from);
    if arrived.phase == Phase::Parsing {
        lemma_settle_step(arrived, world);
        if world.files.contains(state.args[stop]) {
            lemma_parsing(arrived, world, stop + 1);
            assert(arrived.arrive(next_stop(state.args, stop + 1)) == state.arrive(
                next_stop(state.args, stop + 1),
            ));
        }
    } else if arrived.phase == Phase::Reading {
        lemma_reading(arrived, world);
    }
}

/// In any world, a run ends as `expected` says: with the usage text, with
/// one of the six failures, or with the bytes of its inputs written.
pub proof fn law_run_outcome(program: Text, args: Seq<Text>, world: World)
    ensures
        settle(start(program, args), world).is_over(),
        outcome(settle(start(program, args), world)) == expected(program, args, world),
{
    let first = RunView {
        program,
        args,
        phase: Phase::Parsing,
        cursor: 0,
        read: 0,
        buffer: Seq::empty(),
        failure: None,
    };
    lemma_parsing(first, world, 0);
    law_run_ends(program, args, world, enough(start(program, args)));
}

/// What holds of a state that a run reaches in a world, beyond `wf`: the
/// reader has passed no token that ends the reading, and the buffer holds
/// the bytes of the inputs read so far, in order.
pub open spec fn on_course(state: RunView, world: World) -> bool {
    &&& state.wf()
    &&& world.first_halt(state.args, state.cursor) == world.first_halt(state.args, 0)
    &&& state.buffer == world.gather(state.paths(), state.read)
    &&& forall|i: int| 0 <= i < state.read ==> (world.read)(#[trigger] state.paths()[i]) is Ok
}

/// In a world, a run keeps its program name and its command line, and stays
/// on course.
proof fn lemma_run_invariant(state: RunView, world: World, steps: nat)
    requires
        on_course(state, world),
    ensures
        on_course(run_for(state, world, steps), world),
        run_for(state, world, steps).program == state.program,
        run_for(state, world, steps).args == state.args,
    decreases steps,
{
    if steps > 0 {
        let next = state.step(world.answer(state.pending()));
        law_step_wf(state, world.answer(state.pending()));
        if state.phase == Phase::Parsing && world.files.contains(state.args[state.cursor]) {
            lemma_first_halt_skips(world, state.args, state.cursor + 1);
        }
        lemma_run_invariant(next, world, (steps - 1) as nat);
    }
}

/// Every state that a run reaches in a world is on course, and has the
/// program name and the command line of the start.
pub proof fn law_on_course(program: Text, args: Seq<Text>, world: World, steps: nat)
    ensures
        on_course(run_for(start(program, args), world, steps), world),
        run_for(start(program, args), world, steps).program == program,
        run_for(start(program, args), world, steps).args == args,
{
    law_start_wf(program, args);
    lemma_first_halt_skips(world, args, 0);
    lemma_run_invariant(start(program, args), world, steps);
}

/// Where no token ends the reading, every input path names a file.
proof fn lemma_inputs_are_files(world: World, args: Seq<Text>, n: int)
    requires
        0 <= n <= args.len(),
        forall|j: int| 0 <= j < n ==> !world.halts(args, j),
    ensures
        forall|i: int|
            0 <= i < inputs(args, n).len() ==> world.files.contains(#[trigger] inputs(args, n)[i]),
    decreases n,
{
    if n > 0 {
        lemma_inputs_are_files(world, args, n - 1);
        assert(!world.halts(args, n - 1));
        assert forall|i: int| 0 <= i < inputs(args, n).len() implies world.files.contains(
            #[trigger] inputs(args, n)[i],
        ) by {
            if i < inputs(args, n - 1).len() {
                assert(inputs(args, n)[i] == inputs(args, n - 1)[i]);
            }
        }
    }
}

/// Whenever a run asks for a write, every input path has been found to name
/// a file and every input has been read, and the write is of the bytes of
/// all inputs, in the order given, to the target that the command line
/// names.
pub proof fn law_write_is_concatenation(
    program: Text,
    args: Seq<Text>,
    world: World,
    steps: nat,
)
    requires
        run_for(start(program, args), world, steps).pending() is Write,
    ensures
        run_for(start(program, args), world, steps).pending() == (ActionView::Write {
            target: output_of(args, args.len() as int),
            bytes: world.gather(
                inputs(args, args.len() as int),
                inputs(args, args.len() as int).len() as int,
            ),
        }),
        forall|i: int|
            0 <= i < inputs(args, args.len() as int).len() ==> world.files.contains(
                #[trigger] inputs(args, args.len() as int)[i],
            ) && (world.read)(inputs(args, args.len() as int)[i]) is Ok,
{
    law_on_course(program, args, world, steps);
    lemma_first_halt_bounds(world, args, 0);
    lemma_inputs_are_files(world, args, args.len() as int);
}

/// The first halt at or after `i` is the one token from `i` on that ends the
/// reading and has none before it that does.
proof fn lemma_first_halt_is(world: World, args: Seq<Text>, i: int, halt: int)
    requires
        0 <= i <= halt <= args.len(),
        forall|j: int| i <= j < halt ==> !world.halts(args, j),
        halt < args.len() ==> world.halts(args, halt),
    ensures
        world.first_halt(args, i) == halt,
    decreases halt - i,
{
    if i < halt {
        lemma_first_halt_is(world, args, i + 1, halt);
    }
}

/// Where no token is an input path, there are no inputs.
proof fn lemma_no_inputs(args: Seq<Text>, n: int)
    requires
        0 <= n <= args.len(),
        forall|j: int| 0 <= j < n ==> role(args, j) != Role::Input,
    ensures
        inputs(args, n) == Seq::<Text>::empty(),
    decreases n,
{
    if n > 0 {
        lemma_no_inputs(args, n - 1);
    }
}

/// A command line without input paths and without a help flag, which does
/// not end in an `-o` left without its path, fails for want of input files in
/// any world: the message is `At least one file must be provided!`, and the
/// usage text follows it.
pub proof fn law_no_input_files(program: Text, args: Seq<Text>, world: World)
    requires
        forall|j: int|
            0 <= j < args.len() ==> role(args, j) != Role::Input && role(args, j) != Role::Help,
        !expects_output(args, args.len() as int),
    ensures
        outcome(settle(start(program, args), world)) == (Outcome::Failed {
            failure: FailureView::NoInputFiles,
        }),
        settle(start(program, args), world).pending() == (ActionView::Fail {
            text: "[ERROR] "@ + "At least one file must be provided!"@ + "\n"@ + usage_text(
                program,
            ),
        }),
{
    law_run_outcome(program, args, world);
    law_on_course(program, args, world, enough(start(program, args)));
    lemma_first_halt_is(world, args, 0, args.len() as int);
    lemma_no_inputs(args, args.len() as int);
}

/// A help flag ends the run with the usage text, whatever else the command
/// line holds, if no input path before the flag fails to name a file: the
/// run shows the four lines of the usage text, and never asks for a file to
/// be read or for anything to be written.
pub proof fn law_help(program: Text, args: Seq<Text>, world: World, at: int)
    requires
        0 <= at < args.len(),
        role(args, at) == Role::Help,
        forall|j: int| 0 <= j < at ==> !world.halts(args, j),
    ensures
        outcome(settle(start(program, args), world)) == (Outcome::Help {
            text: usage_text(program),
        }),
        settle(start(program, args), world).pending() == (ActionView::ShowUsage {
            text: usage_text(program),
        }),
        forall|steps: nat|
            !((#[trigger] run_for(start(program, args), world, steps)).pending() is ReadFile)
                && !(run_for(start(program, args), world, steps).pending() is Write),
{
    law_run_outcome(program, args, world);
    law_on_course(program, args, world, enough(start(program, args)));
    lemma_first_halt_is(world, args, 0, at);
    assert forall|steps: nat|
        !((#[trigger] run_for(start(program, args), world, steps)).pending() is ReadFile) && !(
        run_for(start(program, args), world, steps).pending() is Write) by {
        let state = run_for(start(program, args), world, steps);
        law_on_course(program, args, world, steps);
        lemma_first_halt_bounds(world, args, state.cursor);
    }
}

/// A command line that ends in an `-o` without a path behind it fails for
/// want of the output path, if the reading gets that far: the message says
/// so, and no usage text follows it.
pub proof fn law_missing_output_argument(program: Text, args: Seq<Text>, world: World)
    requires
        0 < args.len(),
        role(args, args.len() - 1) == Role::OutputFlag,
        forall|j: int| 0 <= j < args.len() ==> !world.halts(args, j),
    ensures
        outcome(settle(start(program, args), world)) == (Outcome::Failed {
            failure: FailureView::MissingOutputArgument,
        }),
        settle(start(program, args), world).pending() == (ActionView::Fail {
            text: "[ERROR] "@ + "Was expecting an output path after `-o` but got nothing"@
                + "\n"@,
        }),
{
    law_run_outcome(program, args, world);
    law_on_course(program, args, world, enough(start(program, args)));
    lemma_first_halt_is(world, args, 0, args.len() as int);
}

/// The first halt at or after `i` is a token that ends the reading, or the
/// end of the list, and no token from `i` up to it ends the reading.
proof fn lemma_first_halt_bounds(world: World, args: Seq<Text>, i: int)
    requires
        0 <= i <= args.len(),
    ensures
        i <= world.first_halt(args, i) <= args.len(),
        forall|j: int| i <= j < world.first_halt(args, i) ==> !world.halts(args, j),
        world.first_halt(args, i) < args.len() ==> world.halts(args, world.first_halt(args, i)),
    decreases args.len() - i,
{
    if i < args.len() && !world.halts(args, i) {
        lemma_first_halt_bounds(world, args, i + 1);
    }
}

/// An input path that names no file ends the run with a failure that names
/// the path, if the reading gets that far. No usage text follows the
/// message, and the run never asks for anything to be written.
pub proof fn law_invalid_input_path(program: Text, args: Seq<Text>, world: World, at: int)
    requires
        0 <= at < args.len(),
        role(args, at) == Role::Input,
        !world.files.contains(args[at]),
        forall|j: int| 0 <= j < at ==> !world.halts(args, j),
    ensures
        outcome(settle(start(program, args), world)) == (Outcome::Failed {
            failure: FailureView::InvalidInputPath { path: args[at] },
        }),
        settle(start(program, args), world).pending() == (ActionView::Fail {
            text: "[ERROR] "@ + ("Non-file passed in: "@ + args[at]) + "\n"@,
        }),
        forall|steps: nat| !(#[trigger] run_for(start(program, args), world, steps).pending() is Write),
{
    law_run_outcome(program, args, world);
    law_on_course(program, args, world, enough(start(program, args)));
    lemma_first_halt_is(world, args, 0, at);
    assert forall|steps: nat| !(#[trigger] run_for(
        start(program, args),
        world,
        steps,
    ).pending() is Write) by {
        let state = run_for(start(program, args), world, steps);
        law_on_course(program, args, world, steps);
        lemma_first_halt_bounds(world, args, state.cursor);
    }
}

/// If each of the files can be read, none is the first that cannot.
proof fn lemma_all_readable(world: World, paths: Seq<Text>, k: int)
    requires
        0 <= k <= paths.len(),
        forall|i: int| 0 <= i < paths.len() ==> (world.read)(#[trigger] paths[i]) is Ok,
    ensures
        world.first_unreadable(paths, k) == paths.len(),
    decreases paths.len() - k,
{
    if k < paths.len() {
        lemma_all_readable(world, paths, k + 1);
    }
}

/// On a command line of plain tokens, every token is an input path.
proof fn lemma_plain(files: Seq<Text>, n: int)
    requires
        0 <= n <= files.len(),
        forall|i: int| 0 <= i < files.len() ==> plain(#[trigger] files[i]),
    ensures
        !expects_output(files, n),
        inputs(files, n) == files.subrange(0, n),
        output_of(files, n) is None,
        forall|j: int| 0 <= j < n ==> role(files, j) == Role::Input,
    decreases n,
{
    if n > 0 {
        lemma_plain(files, n - 1);
        assert(plain(files[n - 1]));
        assert(inputs(files, n) =~= files.subrange(0, n));
    } else {
        assert(inputs(files, n) =~= files.subrange(0, n));
    }
}

/// Called on one or more files that exist and can be read, and on nothing
/// else, a run writes to standard output the bytes of the files, one file
/// after the other in the order given, if the write goes through: that is
/// the one thing it writes, and it ends with success.
pub proof fn law_concatenates_to_stdout(program: Text, files: Seq<Text>, world: World)
    requires
        0 < files.len(),
        forall|i: int| 0 <= i < files.len() ==> plain(#[trigger] files[i]),
        forall|i: int| 0 <= i < files.len() ==> world.files.contains(#[trigger] files[i]),
        forall|i: int| 0 <= i < files.len() ==> (world.read)(#[trigger] files[i]) is Ok,
        (world.write_error)(None, world.gather(files, files.len() as int)) is None,
    ensures
        outcome(settle(start(program, files), world)) == (Outcome::Written {
            target: None,
            bytes: world.gather(files, files.len() as int),
        }),
        settle(start(program, files), world).phase == Phase::Done,
        forall|steps: nat|
            (#[trigger] run_for(start(program, files), world, steps)).pending() is Write ==> run_for(
                start(program, files),
                world,
                steps,
            ).pending() == (ActionView::Write {
                target: None,
                bytes: world.gather(files, files.len() as int),
            }),
        forall|steps: nat|
            !((#[trigger] run_for(start(program, files), world, steps)).pending() is ShowUsage),
{
    let n = files.len() as int;
    lemma_plain(files, n);
    assert(files.subrange(0, n) =~= files);
    law_run_outcome(program, files, world);
    law_on_course(program, files, world, enough(start(program, files)));
    lemma_first_halt_is(world, files, 0, n);
    lemma_all_readable(world, files, 0);
    assert forall|steps: nat|
        (#[trigger] run_for(start(program, files), world, steps)).pending() is Write implies run_for(
        start(program, files),
        world,
        steps,
    ).pending() == (ActionView::Write { target: None, bytes: world.gather(files, n) }) by {
        law_write_is_concatenation(program, files, world, steps);
    }
    assert forall|steps: nat|
        !((#[trigger] run_for(start(program, files), world, steps)).pending() is ShowUsage) by {
        law_on_course(program, files, world, steps);
    }
}

/// On a command line of plain tokens with one `-o` and its path among them,
/// the plain tokens are the inputs and the path is the output path.
proof fn lemma_with_output(files: Seq<Text>, at: int, path: Text, n: int)
    requires
        0 <= at <= files.len(),
        0 <= n <= files.len() + 2,
        forall|i: int| 0 <= i < files.len() ==> plain(#[trigger] files[i]),
    ensures
        expects_output(with_output(files, at, path), n) == (n == at + 1),
        inputs(with_output(files, at, path), n) == files.subrange(
            0,
            if n <= at {
                n
            } else if n == at + 1 {
                at
            } else {
                n - 2
            },
        ),
        output_of(with_output(files, at, path), n) == if n >= at + 2 {
            Some(path)
        } else {
            None
        },
        forall|j: int|
            0 <= j < n ==> role(with_output(files, at, path), j) == if j == at {
                Role::OutputFlag
            } else if j == at + 1 {
                Role::OutputPath
            } else {
                Role::Input
            },
    decreases n,
{
    let args = with_output(files, at, path);
    if n > 0 {
        lemma_with_output(files, at, path, n - 1);
        let j = n - 1;
        if j < at {
            assert(args[j] == files[j]);
            assert(plain(files[j]));
        } else if j >= at + 2 {
            assert(args[j] == files[j - 2]);
            assert(plain(files[j - 2]));
        } else if j == at {
            assert(args[j] == "-o"@);
        }
        if j < at {
            assert(files.subrange(0, j).push(files[j]) =~= files.subrange(0, n));
        } else if j >= at + 2 {
            assert(files.subrange(0, j - 2).push(files[j - 2]) =~= files.subrange(0, n - 2));
        }
    } else {
        assert(inputs(args, n) =~= files.subrange(0, 0));
    }
}

/// Called on one or more files that exist and can be read, with `-o` and a
/// path before, between or behind them, a run writes to the file at that
/// path the bytes of the files, one file after the other in the order given,
/// if the file can be created and the write goes through. That is the one
/// thing it writes: nothing goes to standard output.
pub proof fn law_concatenates_to_file(
    program: Text,
    files: Seq<Text>,
    at: int,
    path: Text,
    world: World,
)
    requires
        0 < files.len(),
        0 <= at <= files.len(),
        forall|i: int| 0 <= i < files.len() ==> plain(#[trigger] files[i]),
        forall|i: int| 0 <= i < files.len() ==> world.files.contains(#[trigger] files[i]),
        forall|i: int| 0 <= i < files.len() ==> (world.read)(#[trigger] files[i]) is Ok,
        (world.open_error)(path) is None,
        (world.write_error)(Some(path), world.gather(files, files.len() as int)) is None,
    ensures
        outcome(settle(start(program, with_output(files, at, path)), world)) == (Outcome::Written {
            target: Some(path),
            bytes: world.gather(files, files.len() as int),
        }),
        settle(start(program, with_output(files, at, path)), world).phase == Phase::Done,
        forall|steps: nat|
            (#[trigger] run_for(
                start(program, with_output(files, at, path)),
                world,
                steps,
            )).pending() is Write ==> run_for(
                start(program, with_output(files, at, path)),
                world,
                steps,
            ).pending() == (ActionView::Write {
                target: Some(path),
                bytes: world.gather(files, files.len() as int),
            }),
        forall|steps: nat|
            !((#[trigger] run_for(
                start(program, with_output(files, at, path)),
                world,
                steps,
            )).pending() is ShowUsage),
{
    let args = with_output(files, at, path);
    let n = args.len() as int;
    let bytes = world.gather(files, files.len() as int);
    lemma_with_output(files, at, path, n);
    assert(files.subrange(0, n - 2) =~= files);
    assert forall|j: int| 0 <= j < n implies !world.halts(args, j) by {
        if j < at {
            assert(args[j] == files[j]);
        } else if j >= at + 2 {
            assert(args[j] == files[j - 2]);
        }
    }
    law_run_outcome(program, args, world);
    law_on_course(program, args, world, enough(start(program, args)));
    lemma_first_halt_is(world, args, 0, n);
    lemma_all_readable(world, files, 0);
    assert forall|steps: nat|
        (#[trigger] run_for(start(program, args), world, steps)).pending() is Write implies run_for(
        start(program, args),
        world,
        steps,
    ).pending() == (ActionView::Write { target: Some(path), bytes }) by {
        law_write_is_concatenation(program, args, world, steps);
    }
    assert forall|steps: nat|
        !((#[trigger] run_for(start(program, args), world, steps)).pending() is ShowUsage) by {
        law_on_course(program, args, world, steps);
    }
}

/// Up to the first file that cannot be read, every file can.
proof fn lemma_first_unreadable_bounds(world: World, paths: Seq<Text>, k: int)
    requires
        0 <= k <= paths.len(),
    ensures
        k <= world.first_unreadable(paths, k) <= paths.len(),
        forall|i: int|
            k <= i < world.first_unreadable(paths, k) ==> (world.read)(#[trigger] paths[i]) is Ok,
    decreases paths.len() - k,
{
    if k < paths.len() && (world.read)(paths[k]) is Ok {
        lemma_first_unreadable_bounds(world, paths, k + 1);
    }
}

/// Two worlds in which reading each of the files gives the same give the
/// same bytes for them all.
proof fn lemma_gather_same(one: World, other: World, paths: Seq<Text>, n: int)
    requires
        0 <= n <= paths.len(),
        forall|i: int| 0 <= i < paths.len() ==> (one.read)(#[trigger] paths[i]) == (other.read)(paths[i]),
    ensures
        one.gather(paths, n) == other.gather(paths, n),
    decreases n,
{
    if n > 0 {
        lemma_gather_same(one, other, paths, n - 1);
    }
}

/// A run that has written to an output file can be repeated: on the same
/// command line, in the world as the write left it, and with the inputs
/// holding what they held, the run writes the same bytes to the same file,
/// which then holds what it held after the first run.
pub proof fn law_idempotent(
    program: Text,
    args: Seq<Text>,
    world: World,
    path: Text,
    bytes: Seq<u8>,
)
    requires
        outcome(settle(start(program, args), world)) == (Outcome::Written {
            target: Some(path),
            bytes,
        }),
        forall|i: int|
            0 <= i < inputs(args, args.len() as int).len() && #[trigger] inputs(
                args,
                args.len() as int,
            )[i] == path ==> (world.read)(path) == Ok::<Seq<u8>, Text>(bytes),
    ensures
        outcome(settle(start(program, args), world.after_write(Some(path), bytes)))
            == (Outcome::Written { target: Some(path), bytes }),
        world.after_write(Some(path), bytes).after_write(Some(path), bytes) == world.after_write(
            Some(path),
            bytes,
        ),
{
    let n = args.len() as int;
    let paths = inputs(args, n);
    let after = world.after_write(Some(path), bytes);
    law_run_outcome(program, args, world);
    law_run_outcome(program, args, after);
    lemma_first_halt_bounds(world, args, 0);
    assert forall|j: int| 0 <= j < n implies !after.halts(args, j) by {
        assert(!world.halts(args, j));
    }
    lemma_first_halt_is(after, args, 0, n);
    lemma_first_unreadable_bounds(world, paths, 0);
    assert forall|i: int| 0 <= i < paths.len() implies (world.read)(#[trigger] paths[i]) == (
    after.read)(paths[i]) by {}
    lemma_all_readable(after, paths, 0);
    lemma_gather_same(world, after, paths, paths.len() as int);
    let again = after.after_write(Some(path), bytes);
    assert(again.files =~= after.files);
    assert(again.read =~= after.read);
}

} // verus!
