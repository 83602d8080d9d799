//! The life of one falling string as a sequence of actions: paint a frame,
//! pause, blank the frame, and so on until the string has left the screen.
//! The caller performs each action on the terminal and asks for the next.

use vstd::prelude::*;
use crate::direction::Direction;
use crate::geometry::{step_count, travel_steps, Position, TerminalBounds};
use crate::motion::{blank_frame_of, erased_frame, frame_of, painted_frame, Cell};
use crate::text::chars_of;

verus! {

/// Milliseconds for which a painted frame stays on the screen.
pub const FRAME_PAUSE_MS: u64 = 100;

/// What an animation does next within its current step.
#[derive(Clone, Copy, Debug, PartialEq, Eq, Structural)]
pub enum Stage {
    Paint,
    Hold,
    Erase,
}

/// One thing for the caller to do on the terminal.
#[derive(Debug, PartialEq, Eq)]
pub enum AnimationAction {
    /// Write these characters as one frame, then flush.
    Paint(Vec<Cell>),
    /// Sleep for this many milliseconds.
    Pause(u64),
    /// Write these spaces as one frame, then flush.
    Erase(Vec<Cell>),
    /// The string has left the screen; nothing is left to do.
    Finished,
}

/// An action with its cells as a sequence.
pub enum ActionView {
    Paint(Seq<Cell>),
    Pause(u64),
    Erase(Seq<Cell>),
    Finished,
}

impl View for AnimationAction {
    type V = ActionView;

    open spec fn view(&self) -> ActionView {
        match self {
            AnimationAction::Paint(cells) => ActionView::Paint(cells@),
            AnimationAction::Pause(ms) => ActionView::Pause(*ms),
            AnimationAction::Erase(cells) => ActionView::Erase(cells@),
            AnimationAction::Finished => ActionView::Finished,
        }
    }
}

/// The state of an animation: what moves, where, and how far it has come.
pub struct AnimationView {
    pub text: Seq<char>,
    pub direction: Direction,
    pub origin: Position,
    pub bounds: TerminalBounds,
    pub step: nat,
    pub stage: Stage,
}

impl AnimationView {
    /// The state before the first action.
    pub open spec fn start(
        text: Seq<char>,
        direction: Direction,
        origin: Position,
        bounds: TerminalBounds,
    ) -> AnimationView {
        AnimationView { text, direction, origin, bounds, step: 0, stage: Stage::Paint }
    }

    /// Number of steps of the whole animation.
    pub open spec fn steps(self) -> nat {
        travel_steps(self.direction, self.origin, self.bounds)
    }

    /// A frame is on the screen only during a step of the animation.
    pub open spec fn well_formed(self) -> bool {
        &&& self.step <= self.steps()
        &&& self.stage != Stage::Paint ==> self.step < self.steps()
    }

    /// Whether every step has been played.
    pub open spec fn finished(self) -> bool {
        self.stage == Stage::Paint && self.step >= self.steps()
    }

    /// The action that is due in this state.
    pub open spec fn action(self) -> ActionView {
        match self.stage {
            Stage::Paint => if self.step < self.steps() {
                ActionView::Paint(
                    painted_frame(self.text, self.direction, self.origin, self.bounds, self.step),
                )
            } else {
                ActionView::Finished
            },
            Stage::Hold => ActionView::Pause(FRAME_PAUSE_MS),
            Stage::Erase => ActionView::Erase(
                erased_frame(self.text.len(), self.direction, self.origin, self.bounds, self.step),
            ),
        }
    }

    /// The state once the due action has been handed out.
    pub open spec fn next(self) -> AnimationView {
        match self.stage {
            Stage::Paint => if self.step < self.steps() {
                AnimationView { stage: Stage::Hold, ..self }
            } else {
                self
            },
            Stage::Hold => AnimationView { stage: Stage::Erase, ..self },
            Stage::Erase => AnimationView { stage: Stage::Paint, step: self.step + 1, ..self },
        }
    }

    /// The state after `count` actions.
    pub open spec fn after(self, count: nat) -> AnimationView
        decreases count,
    {
        if count == 0 {
            self
        } else {
            self.after((count - 1) as nat).next()
        }
    }
}

/// A string in motion.
pub struct Animation {
    glyphs: Vec<char>,
    direction: Direction,
    origin: Position,
    bounds: TerminalBounds,
    step: u32,
    stage: Stage,
}

impl View for Animation {
    type V = AnimationView;

    closed spec fn view(&self) -> AnimationView {
        AnimationView {
            text: self.glyphs@,
            direction: self.direction,
            origin: self.origin,
            bounds: self.bounds,
            step: self.step as nat,
            stage: self.stage,
        }
    }
}

impl Animation {
    #[verifier::type_invariant]
    spec fn inv(&self) -> bool {
        self@.well_formed()
    }

    /// An animation of `text` that starts at `origin` and has done nothing
    /// yet. The origin need not lie on the screen.
    pub fn new(text: &str, direction: Direction, origin: Position, bounds: TerminalBounds) -> (animation:
        Animation)
        ensures
            animation@ == AnimationView::start(text@, direction, origin, bounds),
    {
        Animation { glyphs: chars_of(text), direction, origin, bounds, step: 0, stage: Stage::Paint }
    }

    /// Whether every step has been played.
    pub fn is_finished(&self) -> (done: bool)
        ensures
            done == self@.finished(),
    {
        proof {
            use_type_invariant(self);
        }
        match self.stage {
            Stage::Paint => self.step >= step_count(self.direction, self.origin, self.bounds),
            _ => false,
        }
    }

    /// Hands out the action that is due and moves on. Once the animation has
    /// finished it keeps answering `Finished` and stays as it is.
    pub fn next_action(&mut self) -> (action: AnimationAction)
        ensures
            action@ == old(self)@.action(),
            final(self)@ == old(self)@.next(),
            final(self)@.well_formed(),
    {
        proof {
            use_type_invariant(&*self);
        }
        match self.stage {
            Stage::Paint => {
                if self.step < step_count(self.direction, self.origin, self.bounds) {
                    self.stage = Stage::Hold;
                    AnimationAction::Paint(
                        frame_of(&self.glyphs, self.direction, self.origin, self.bounds, self.step),
                    )
                } else {
                    AnimationAction::Finished
                }
            },
            Stage::Hold => {
                self.stage = Stage::Erase;
                AnimationAction::Pause(FRAME_PAUSE_MS)
            },
            Stage::Erase => {
                let cells = blank_frame_of(
                    self.glyphs.len(),
                    self.direction,
                    self.origin,
                    self.bounds,
                    self.step,
                );
                self.stage = Stage::Paint;
                self.step = self.step + 1;
                AnimationAction::Erase(cells)
            },
        }
    }
}

/// The stage that is due after `count` actions of an unfinished animation.
pub open spec fn stage_after(count: nat) -> Stage {
    if count % 3 == 0 {
        Stage::Paint
    } else if count % 3 == 1 {
        Stage::Hold
    } else {
        Stage::Erase
    }
}

/// An animation plays each of its steps once, as paint, pause and erase in
/// that order, and no step beyond the last: after three actions for each
/// step it has finished, and it stays finished whatever is asked of it.
pub proof fn lemma_animation_plays_each_step_once(
    text: Seq<char>,
    direction: Direction,
    origin: Position,
    bounds: TerminalBounds,
    count: nat,
)
    ensures
        ({
            let start = AnimationView::start(text, direction, origin, bounds);
            let reached = start.after(count);
            &&& reached.well_formed()
            &&& count < 3 * start.steps() ==> reached == AnimationView {
                step: count / 3,
                stage: stage_after(count),
                ..start
            } && reached.action() != ActionView::Finished
            &&& count >= 3 * start.steps() ==> reached == AnimationView {
                step: start.steps(),
                ..start
            } && reached.action() == ActionView::Finished
        }),
    decreases count,
{
    if count > 0 {
        lemma_animation_plays_each_step_once(text, direction, origin, bounds, (count - 1) as nat);
    }
}

/// A state that respects the steps of its animation keeps doing so.
pub proof fn lemma_next_keeps_well_formed(state: AnimationView)
    requires
        state.well_formed(),
    ensures
        state.next().well_formed(),
        state.finished() <==> state.action() == ActionView::Finished,
        state.finished() ==> state.next() == state,
{
}

} // verus!
