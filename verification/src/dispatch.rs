//! One run of the kernel: the fixed grid it is dispatched over, and the stages that the
//! run goes through, each entered only when the device has reported the one before.
//!
//! The device work itself is done by the caller. The caller asks what to do, does it,
//! and reports how it ended; `step` then says what follows.
use crate::error::TracerError;
use crate::raster::pixel_count;
use vstd::prelude::*;

verus! {

/// Work groups along the first axis of the grid.
pub const GROUPS_X: u32 = 10000;

/// Work groups along the second axis of the grid.
pub const GROUPS_Y: u32 = 1;

/// Work groups along the third axis of the grid.
pub const GROUPS_Z: u32 = 1;

/// How far one run has come.
#[derive(Clone, Copy, Debug, PartialEq, Eq, Structural)]
pub enum Phase {
    /// Nothing has been recorded.
    Idle,
    /// The dispatch stands in a command buffer.
    Recorded,
    /// The command buffer has been handed to the queue.
    Submitted,
    /// The device has signalled the fence: its writes are complete.
    Signaled,
    /// The output has been read back.
    Read,
}

/// A piece of device work.
#[derive(Clone, Copy, Debug, PartialEq, Eq, Structural)]
pub enum Command {
    /// Record one dispatch of the kernel over the grid.
    Record,
    /// Hand the command buffer to the queue.
    Submit,
    /// Have a fence signalled after the work and wait for it, without a time limit.
    AwaitFence,
    /// Read the output buffer back.
    ReadBack,
}

/// How a piece of device work ended.
#[derive(Clone, Copy, Debug, PartialEq, Eq, Structural)]
pub enum Outcome {
    Succeeded,
    Failed,
}

/// What the caller does next.
#[derive(Clone, Copy, Debug, PartialEq, Eq, Structural)]
pub enum Action {
    /// Do this piece of device work and report its outcome.
    Run(Command),
    /// The run is complete: hand the pixels out.
    Deliver,
    /// The run has failed at this stage: hand nothing out.
    Abort(TracerError),
}

impl Phase {
    /// The position of a phase in the order of a run, from 0 for `Idle` to 4 for `Read`.
    pub open spec fn rank(self) -> int {
        match self {
            Phase::Idle => 0,
            Phase::Recorded => 1,
            Phase::Submitted => 2,
            Phase::Signaled => 3,
            Phase::Read => 4,
        }
    }

    /// The phase that follows when the work of this phase succeeds.
    pub open spec fn successor(self) -> Phase {
        match self {
            Phase::Idle => Phase::Recorded,
            Phase::Recorded => Phase::Submitted,
            Phase::Submitted => Phase::Signaled,
            Phase::Signaled => Phase::Read,
            Phase::Read => Phase::Read,
        }
    }

    /// What is to be done in this phase.
    pub open spec fn action_of(self) -> Action {
        match self {
            Phase::Idle => Action::Run(Command::Record),
            Phase::Recorded => Action::Run(Command::Submit),
            Phase::Submitted => Action::Run(Command::AwaitFence),
            Phase::Signaled => Action::Run(Command::ReadBack),
            Phase::Read => Action::Deliver,
        }
    }

    /// The error that a failure of this phase's work is.
    pub open spec fn failure_of(self) -> TracerError {
        match self {
            Phase::Idle => TracerError::Recording,
            Phase::Recorded => TracerError::Submission,
            Phase::Submitted => TracerError::FenceWait,
            Phase::Signaled => TracerError::BufferMap,
            Phase::Read => TracerError::BufferMap,
        }
    }

    /// What is to be done in this phase.
    pub fn action(self) -> (action: Action)
        ensures
            action == self.action_of(),
    {
        match self {
            Phase::Idle => Action::Run(Command::Record),
            Phase::Recorded => Action::Run(Command::Submit),
            Phase::Submitted => Action::Run(Command::AwaitFence),
            Phase::Signaled => Action::Run(Command::ReadBack),
            Phase::Read => Action::Deliver,
        }
    }
}

/// The phase and the action that follow when the work of `phase` ends with `outcome`.
/// Success leads to the next phase. Failure ends the run with the error of the stage
/// that failed, and leaves nothing recorded. A run that has been read stays so.
pub open spec fn step_of(phase: Phase, outcome: Outcome) -> (Phase, Action) {
    if phase == Phase::Read {
        (Phase::Read, Action::Deliver)
    } else if outcome == Outcome::Failed {
        (Phase::Idle, Action::Abort(phase.failure_of()))
    } else {
        (phase.successor(), phase.successor().action_of())
    }
}

/// The phase and the action after a whole sequence of reports, from the start of a run.
pub open spec fn run_of(reports: Seq<Outcome>) -> (Phase, Action)
    decreases reports.len(),
{
    if reports.len() == 0 {
        (Phase::Idle, Action::Run(Command::Record))
    } else {
        step_of(run_of(reports.drop_last()).0, reports.last())
    }
}

/// The grid that the kernel is dispatched over. It does not depend on the raster: the
/// kernel itself passes over the invocations beyond the last pixel.
pub fn work_groups() -> (groups: [u32; 3])
    ensures
        groups[0] == GROUPS_X,
        groups[1] == GROUPS_Y,
        groups[2] == GROUPS_Z,
{
    [GROUPS_X, GROUPS_Y, GROUPS_Z]
}

/// Whether the grid gives every pixel of a `width` by `height` raster an invocation,
/// for a kernel whose work groups hold `local_size` invocations each.
pub fn grid_covers(local_size: u32, width: u32, height: u32) -> (covered: bool)
    ensures
        covered == (width * height <= GROUPS_X * GROUPS_Y * GROUPS_Z * local_size),
{
    let groups: u64 = GROUPS_X as u64;
    assert(groups == 10000 && GROUPS_Y == 1 && GROUPS_Z == 1);
    pixel_count(width, height) <= groups * (local_size as u64)
}

/// The start of a run: nothing recorded, the dispatch to be recorded first.
pub fn start() -> (first: (Phase, Action))
    ensures
        first == run_of(Seq::<Outcome>::empty()),
        first == (Phase::Idle, Action::Run(Command::Record)),
{
    (Phase::Idle, Action::Run(Command::Record))
}

/// The phase and the action that follow when the work of `phase` ends with `outcome`.
pub fn step(phase: Phase, outcome: Outcome) -> (next: (Phase, Action))
    ensures
        next == step_of(phase, outcome),
{
    match phase {
        Phase::Read => (Phase::Read, Action::Deliver),
        Phase::Idle => match outcome {
            Outcome::Succeeded => (Phase::Recorded, Action::Run(Command::Submit)),
            Outcome::Failed => (Phase::Idle, Action::Abort(TracerError::Recording)),
        },
        Phase::Recorded => match outcome {
            Outcome::Succeeded => (Phase::Submitted, Action::Run(Command::AwaitFence)),
            Outcome::Failed => (Phase::Idle, Action::Abort(TracerError::Submission)),
        },
        Phase::Submitted => match outcome {
            Outcome::Succeeded => (Phase::Signaled, Action::Run(Command::ReadBack)),
            Outcome::Failed => (Phase::Idle, Action::Abort(TracerError::FenceWait)),
        },
        Phase::Signaled => match outcome {
            Outcome::Succeeded => (Phase::Read, Action::Deliver),
            Outcome::Failed => (Phase::Idle, Action::Abort(TracerError::BufferMap)),
        },
    }
}

/// A phase is entered only from the one before it, on a report of success: the fence is
/// awaited only for work that was submitted, and the output is read only after the fence
/// was signalled.
pub proof fn lemma_phases_in_order(phase: Phase, outcome: Outcome)
    ensures
        step_of(phase, outcome).0.rank() <= phase.rank() + 1,
        step_of(phase, outcome).0.rank() == phase.rank() + 1 ==> outcome == Outcome::Succeeded,
        step_of(phase, outcome).0 == Phase::Signaled ==> phase == Phase::Submitted && outcome
            == Outcome::Succeeded,
        step_of(phase, outcome).0 == Phase::Read ==> phase == Phase::Read || (phase
            == Phase::Signaled && outcome == Outcome::Succeeded),
        step_of(phase, outcome).1 == Action::Deliver <==> step_of(phase, outcome).0 == Phase::Read,
{
}

/// A failure ends the run with an error of its own stage: recording and submission give
/// submission errors, the fence and the read give synchronization errors.
pub proof fn lemma_failure_names_stage(phase: Phase)
    requires
        phase != Phase::Read,
    ensures
        step_of(phase, Outcome::Failed) == (Phase::Idle, Action::Abort(phase.failure_of())),
        phase.rank() < 2 ==> phase.failure_of().kind_of() == crate::error::ErrorKind::Submission,
        phase.rank() >= 2 ==> phase.failure_of().kind_of()
            == crate::error::ErrorKind::Synchronization,
{
}

/// A run has no memory and no chance in it: two runs that get the same reports from the
/// device are, after every report, in the same phase and ask for the same action.
pub proof fn lemma_same_reports_same_run(first: Seq<Outcome>, second: Seq<Outcome>)
    requires
        first.len() == second.len(),
        forall|i: int| 0 <= i < first.len() ==> first[i] == second[i],
    ensures
        forall|n: int|
            0 <= n <= first.len() ==> run_of(#[trigger] first.take(n)) == run_of(second.take(n)),
{
    assert forall|n: int| 0 <= n <= first.len() implies run_of(#[trigger] first.take(n))
        == run_of(second.take(n)) by {
        assert(first.take(n) =~= second.take(n));
    }
}

/// After `n` reports a run has passed at most `n` stages.
pub proof fn lemma_rank_bounded(reports: Seq<Outcome>)
    ensures
        run_of(reports).0.rank() <= reports.len(),
        run_of(reports).1 == Action::Deliver <==> run_of(reports).0 == Phase::Read,
    decreases reports.len(),
{
    if reports.len() > 0 {
        lemma_rank_bounded(reports.drop_last());
        lemma_phases_in_order(run_of(reports.drop_last()).0, reports.last());
    }
}

/// The pixels are handed out only after four reports, and never straight after a
/// failure.
pub proof fn lemma_deliver_needs_every_stage(reports: Seq<Outcome>)
    requires
        run_of(reports).1 == Action::Deliver,
    ensures
        reports.len() >= 4,
{
    lemma_rank_bounded(reports);
}

/// Four reports of success take a run from its start to the delivery of the pixels.
pub proof fn lemma_run_completes()
    ensures
        run_of(
            seq![Outcome::Succeeded, Outcome::Succeeded, Outcome::Succeeded, Outcome::Succeeded],
        ) == (Phase::Read, Action::Deliver),
{
    let four = seq![Outcome::Succeeded, Outcome::Succeeded, Outcome::Succeeded, Outcome::Succeeded];
    let three = seq![Outcome::Succeeded, Outcome::Succeeded, Outcome::Succeeded];
    let two = seq![Outcome::Succeeded, Outcome::Succeeded];
    let one = seq![Outcome::Succeeded];
    assert(run_of(Seq::<Outcome>::empty()) == (Phase::Idle, Action::Run(Command::Record)));
    assert(one.drop_last() =~= Seq::<Outcome>::empty());
    assert(two.drop_last() =~= one);
    assert(three.drop_last() =~= two);
    assert(four.drop_last() =~= three);
    assert(run_of(one) == (Phase::Recorded, Action::Run(Command::Submit)));
    assert(run_of(two) == (Phase::Submitted, Action::Run(Command::AwaitFence)));
    assert(run_of(three) == (Phase::Signaled, Action::Run(Command::ReadBack)));
}

} // verus!
