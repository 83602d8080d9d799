//! The rules of a run of the rain: when the screen is prepared, when a new
//! batch of strings starts, when the run waits for the strings in flight,
//! and when the cursor comes back. The caller owns the terminal, the clock
//! and the threads; it performs each action and asks for the next.

use vstd::prelude::*;

verus! {

/// Milliseconds between the start of one batch and the next look at the clock.
pub const BATCH_PAUSE_MS: u64 = 150;

/// How far a run has come.
#[derive(Clone, Copy, Debug, PartialEq, Eq, Structural)]
pub enum Phase {
    /// Nothing has been done to the terminal.
    Waiting,
    /// The cursor is hidden and batches start while the time lasts.
    Raining,
    /// The time is up; the strings in flight are being awaited.
    Draining,
    /// The run is over.
    Finished,
}

/// One thing for the caller to do.
#[derive(Clone, Copy, Debug, PartialEq, Eq, Structural)]
pub enum RainAction {
    /// The size of the terminal is not known: report it and give up. The
    /// terminal has not been touched.
    Abort,
    /// Clear the screen, hide the cursor and start the clock.
    Prepare,
    /// Start one batch of strings, each on its own, then sleep
    /// `BATCH_PAUSE_MS` milliseconds.
    LaunchBatch,
    /// Wait until every string that was started has finished.
    JoinAll,
    /// Show the cursor again.
    RestoreCursor,
    /// The run is over; nothing is left to do.
    Done,
}

/// The state of a run.
#[derive(Clone, Copy, Debug, PartialEq, Eq, Structural)]
pub struct Scheduler {
    pub duration_secs: u16,
    pub size_known: bool,
    pub phase: Phase,
}

/// Whether the cursor is hidden once the caller has done what a run in the
/// given phase has handed out.
pub open spec fn cursor_hidden(phase: Phase) -> bool {
    phase == Phase::Raining || phase == Phase::Draining
}

/// The action that is due in `state` when the clock shows `elapsed_secs`
/// whole seconds since the screen was prepared.
pub open spec fn due_action(state: Scheduler, elapsed_secs: u64) -> RainAction {
    match state.phase {
        Phase::Waiting => if state.size_known {
            RainAction::Prepare
        } else {
            RainAction::Abort
        },
        Phase::Raining => if elapsed_secs < state.duration_secs {
            RainAction::LaunchBatch
        } else {
            RainAction::JoinAll
        },
        Phase::Draining => RainAction::RestoreCursor,
        Phase::Finished => RainAction::Done,
    }
}

/// The phase that follows once the due action has been handed out.
pub open spec fn next_phase(state: Scheduler, elapsed_secs: u64) -> Phase {
    match state.phase {
        Phase::Waiting => if state.size_known {
            Phase::Raining
        } else {
            Phase::Finished
        },
        Phase::Raining => if elapsed_secs < state.duration_secs {
            Phase::Raining
        } else {
            Phase::Draining
        },
        Phase::Draining | Phase::Finished => Phase::Finished,
    }
}

impl Scheduler {
    /// A run of `duration_secs` seconds that has not begun. `size_known`
    /// says whether the terminal could tell its size.
    pub fn new(duration_secs: u16, size_known: bool) -> (scheduler: Scheduler)
        ensures
            scheduler == (Scheduler { duration_secs, size_known, phase: Phase::Waiting }),
    {
        Scheduler { duration_secs, size_known, phase: Phase::Waiting }
    }

    /// Hands out the action that is due and moves on. `elapsed_secs` is the
    /// number of whole seconds since the screen was prepared; before that it
    /// is not looked at. The caller has performed the action that it was
    /// handed before.
    pub fn next_action(&mut self, elapsed_secs: u64) -> (action: RainAction)
        ensures
            action == due_action(*old(self), elapsed_secs),
            *final(self) == next_state(*old(self), elapsed_secs),
    {
        match self.phase {
            Phase::Waiting => {
                if self.size_known {
                    self.phase = Phase::Raining;
                    RainAction::Prepare
                } else {
                    self.phase = Phase::Finished;
                    RainAction::Abort
                }
            },
            Phase::Raining => {
                if elapsed_secs < self.duration_secs as u64 {
                    RainAction::LaunchBatch
                } else {
                    self.phase = Phase::Draining;
                    RainAction::JoinAll
                }
            },
            Phase::Draining => {
                self.phase = Phase::Finished;
                RainAction::RestoreCursor
            },
            Phase::Finished => RainAction::Done,
        }
    }
}

/// The state after the due action has been handed out.
pub open spec fn next_state(state: Scheduler, elapsed_secs: u64) -> Scheduler {
    Scheduler { phase: next_phase(state, elapsed_secs), ..state }
}

/// The actions of a run that begins in `state` and reads `clocks` from the
/// clock, one reading for each action.
pub open spec fn actions_of(state: Scheduler, clocks: Seq<u64>) -> Seq<RainAction>
    decreases clocks.len(),
{
    if clocks.len() == 0 {
        Seq::empty()
    } else {
        seq![due_action(state, clocks[0])] + actions_of(
            next_state(state, clocks[0]),
            clocks.skip(1),
        )
    }
}

/// The cursor comes back on every way out. It is hidden by `Prepare` alone
/// and shown again by `RestoreCursor` alone; a run ends either before the
/// cursor was hidden, with `Abort`, or with `RestoreCursor`; and the cursor
/// is restored only after the strings in flight have been awaited.
pub proof fn lemma_cursor_comes_back(state: Scheduler, elapsed_secs: u64)
    ensures
        !cursor_hidden(state.phase) && cursor_hidden(next_phase(state, elapsed_secs)) <==> due_action(
            state,
            elapsed_secs,
        ) == RainAction::Prepare,
        cursor_hidden(state.phase) && !cursor_hidden(next_phase(state, elapsed_secs)) <==> due_action(
            state,
            elapsed_secs,
        ) == RainAction::RestoreCursor,
        !cursor_hidden(Phase::Finished),
        state.phase != Phase::Finished && next_phase(state, elapsed_secs) == Phase::Finished ==> {
            ||| due_action(state, elapsed_secs) == RainAction::Abort && state.phase == Phase::Waiting
            ||| due_action(state, elapsed_secs) == RainAction::RestoreCursor
        },
        due_action(state, elapsed_secs) == RainAction::RestoreCursor <==> state.phase
            == Phase::Draining,
        next_phase(state, elapsed_secs) == Phase::Draining <==> due_action(state, elapsed_secs)
            == RainAction::JoinAll,
{
}

/// A batch starts only while the time lasts: during the rain, and when the
/// clock shows less than the duration.
pub proof fn lemma_batches_stop_with_the_time(state: Scheduler, elapsed_secs: u64)
    ensures
        due_action(state, elapsed_secs) == RainAction::LaunchBatch <==> state.phase == Phase::Raining
            && elapsed_secs < state.duration_secs,
        state.phase == Phase::Draining || state.phase == Phase::Finished ==> next_phase(
            state,
            elapsed_secs,
        ) == Phase::Finished,
{
}

/// A run of no duration starts no batch: whatever the clock shows, it
/// prepares the screen, waits for nothing, shows the cursor again and is
/// over.
pub proof fn lemma_no_time_no_batch(first: u64, second: u64, third: u64, fourth: u64)
    ensures
        actions_of(
            Scheduler { duration_secs: 0, size_known: true, phase: Phase::Waiting },
            seq![first, second, third, fourth],
        ) == seq![
            RainAction::Prepare,
            RainAction::JoinAll,
            RainAction::RestoreCursor,
            RainAction::Done,
        ],
{
    let start = Scheduler { duration_secs: 0, size_known: true, phase: Phase::Waiting };
    let clocks = seq![first, second, third, fourth];
    reveal_with_fuel(actions_of, 5);
    assert(clocks.skip(1) =~= seq![second, third, fourth]);
    assert(clocks.skip(1).skip(1) =~= seq![third, fourth]);
    assert(clocks.skip(1).skip(1).skip(1) =~= seq![fourth]);
    assert(clocks.skip(1).skip(1).skip(1).skip(1) =~= Seq::<u64>::empty());
    assert(actions_of(start, clocks) =~= seq![
        RainAction::Prepare,
        RainAction::JoinAll,
        RainAction::RestoreCursor,
        RainAction::Done,
    ]);
}

/// Without the size of the terminal a run gives up at once and leaves the
/// terminal as it was.
pub proof fn lemma_unknown_size_aborts(duration_secs: u16, first: u64, second: u64)
    ensures
        actions_of(
            Scheduler { duration_secs, size_known: false, phase: Phase::Waiting },
            seq![first, second],
        ) == seq![RainAction::Abort, RainAction::Done],
{
    let start = Scheduler { duration_secs, size_known: false, phase: Phase::Waiting };
    let clocks = seq![first, second];
    reveal_with_fuel(actions_of, 3);
    assert(clocks.skip(1) =~= seq![second]);
    assert(clocks.skip(1).skip(1) =~= Seq::<u64>::empty());
    assert(actions_of(start, clocks) =~= seq![RainAction::Abort, RainAction::Done]);
}

/// Place of an action in the order of a run.
pub open spec fn action_rank(action: RainAction) -> nat {
    match action {
        RainAction::Prepare => 0,
        RainAction::LaunchBatch => 1,
        RainAction::JoinAll => 2,
        RainAction::RestoreCursor | RainAction::Abort => 3,
        RainAction::Done => 4,
    }
}

/// The lowest rank among the actions that are still to come in a phase.
pub open spec fn phase_rank(phase: Phase) -> nat {
    match phase {
        Phase::Waiting => 0,
        Phase::Raining => 1,
        Phase::Draining => 3,
        Phase::Finished => 4,
    }
}

/// A run has one action for each reading of the clock, and none of them
/// comes before the phase in which the run begins.
proof fn lemma_actions_follow_the_phase(state: Scheduler, clocks: Seq<u64>, k: int)
    requires
        0 <= k < clocks.len(),
    ensures
        actions_of(state, clocks).len() == clocks.len(),
        action_rank(actions_of(state, clocks)[k]) >= phase_rank(state.phase),
        k == 0 ==> actions_of(state, clocks)[k] == due_action(state, clocks[0]),
        k > 0 ==> actions_of(state, clocks)[k] == actions_of(
            next_state(state, clocks[0]),
            clocks.skip(1),
        )[k - 1],
    decreases clocks.len(),
{
    lemma_actions_have_the_length(state, clocks);
    lemma_actions_have_the_length(next_state(state, clocks[0]), clocks.skip(1));
    if k > 0 {
        lemma_actions_follow_the_phase(next_state(state, clocks[0]), clocks.skip(1), k - 1);
    }
}

/// A run has one action for each reading of the clock.
proof fn lemma_actions_have_the_length(state: Scheduler, clocks: Seq<u64>)
    ensures
        actions_of(state, clocks).len() == clocks.len(),
    decreases clocks.len(),
{
    if clocks.len() > 0 {
        lemma_actions_have_the_length(next_state(state, clocks[0]), clocks.skip(1));
    }
}

/// Every run keeps the same order, whatever the clock shows: the screen is
/// prepared, batches start, the strings in flight are awaited, the cursor is
/// shown again, and the run is over. No action comes after one of a later
/// place, and only the start of a batch and the final `Done` come more than
/// once. So the cursor is never hidden twice, is shown again after it was
/// hidden, and only once everything that was started has been awaited.
pub proof fn lemma_run_keeps_its_order(state: Scheduler, clocks: Seq<u64>, i: int, j: int)
    requires
        0 <= i < j < clocks.len(),
    ensures
        action_rank(actions_of(state, clocks)[i]) <= action_rank(actions_of(state, clocks)[j]),
        action_rank(actions_of(state, clocks)[i]) == action_rank(actions_of(state, clocks)[j]) ==> {
            ||| actions_of(state, clocks)[i] == RainAction::LaunchBatch && actions_of(
                state,
                clocks,
            )[j] == RainAction::LaunchBatch
            ||| actions_of(state, clocks)[i] == RainAction::Done && actions_of(state, clocks)[j]
                == RainAction::Done
        },
    decreases clocks.len(),
{
    let after = next_state(state, clocks[0]);
    lemma_actions_follow_the_phase(state, clocks, i);
    lemma_actions_follow_the_phase(state, clocks, j);
    if i > 0 {
        lemma_run_keeps_its_order(after, clocks.skip(1), i - 1, j - 1);
    } else {
        lemma_actions_follow_the_phase(after, clocks.skip(1), j - 1);
    }
}

} // verus!
