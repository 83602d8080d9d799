//! Where and with what a new falling string starts: a random length, random
//! characters of the chosen alphabet, and a random place on the edge from
//! which the string travels.

use vstd::prelude::*;
use crate::alphabet::{charset, Alphabet};
use crate::direction::Direction;
use crate::geometry::{Position, TerminalBounds};
use crate::text::push_char;

verus! {

/// Shortest string that is spawned.
pub const MIN_LENGTH: usize = 5;

/// Bound above the length of a spawned string; it is not reached.
pub const MAX_LENGTH: usize = 20;

/// Number of strings that start together.
pub const BATCH_SIZE: usize = 4;

/// A number from `low` up to, but not including, `high`, as
/// `rand::random_range` draws it from the generator of the current thread.
/// Nothing is said of which number comes; the range must not be empty,
/// since the generator refuses an empty one.
#[verifier::external_body]
fn random_in(low: usize, high: usize) -> (drawn: usize)
    requires
        low < high,
    ensures
        low <= drawn < high,
{
    rand::random_range(low..high)
}

/// Whether every character of `text` belongs to the alphabet.
pub open spec fn drawn_from(text: Seq<char>, alphabet: Alphabet) -> bool {
    forall|i: int| 0 <= i < text.len() ==> charset(alphabet).contains(#[trigger] text[i])
}

/// A string of `string_len` characters, each drawn from the alphabet
/// independently of the others, so that a character may come twice.
pub fn random_string(string_len: usize, alphabet: Alphabet) -> (text: String)
    ensures
        text@.len() == string_len,
        drawn_from(text@, alphabet),
{
    let mut text = String::new();
    let size = alphabet.size();
    let mut made: usize = 0;
    while made < string_len
        invariant
            made <= string_len,
            size == charset(alphabet).len(),
            size > 0,
            text@.len() == made,
            drawn_from(text@, alphabet),
        decreases string_len - made,
    {
        let index = random_in(0, size);
        let glyph = alphabet.character(index);
        push_char(&mut text, glyph);
        made += 1;
    }
    text
}

/// Whether a string that travels in `direction` has an edge to start from:
/// the edge across the direction of travel must hold at least one cell.
pub open spec fn can_spawn(direction: Direction, bounds: TerminalBounds) -> bool {
    match direction {
        Direction::Down | Direction::Up => bounds.width > 0,
        Direction::Left | Direction::Right => bounds.height > 0,
    }
}

/// Whether a string that travels in `direction` has an edge to start from.
pub fn spawnable(direction: Direction, bounds: TerminalBounds) -> (possible: bool)
    ensures
        possible == can_spawn(direction, bounds),
{
    match direction {
        Direction::Down | Direction::Up => bounds.width > 0,
        Direction::Left | Direction::Right => bounds.height > 0,
    }
}

/// The origin on the near edge for `direction` whose coordinate across the
/// direction of travel is `across`. Strings that move down or right start at
/// zero; those that move up or left start at the far bound, one cell beyond
/// the screen.
pub open spec fn edge_origin_at(direction: Direction, bounds: TerminalBounds, across: u16) -> Position {
    match direction {
        Direction::Down => Position { col: across, row: 0 },
        Direction::Up => Position { col: across, row: bounds.height },
        Direction::Right => Position { col: 0, row: across },
        Direction::Left => Position { col: bounds.width, row: across },
    }
}

/// Whether `origin` is a place where a string that travels in `direction`
/// may start.
pub open spec fn is_spawn_origin(
    direction: Direction,
    bounds: TerminalBounds,
    origin: Position,
) -> bool {
    match direction {
        Direction::Down => origin.row == 0 && origin.col < bounds.width,
        Direction::Up => origin.row == bounds.height && origin.col < bounds.width,
        Direction::Right => origin.col == 0 && origin.row < bounds.height,
        Direction::Left => origin.col == bounds.width && origin.row < bounds.height,
    }
}

/// The origin on the near edge with the given coordinate across the
/// direction of travel.
pub fn edge_origin(direction: Direction, bounds: TerminalBounds, across: u16) -> (origin: Position)
    ensures
        origin == edge_origin_at(direction, bounds, across),
{
    match direction {
        Direction::Down => Position { col: across, row: 0 },
        Direction::Up => Position { col: across, row: bounds.height },
        Direction::Right => Position { col: 0, row: across },
        Direction::Left => Position { col: bounds.width, row: across },
    }
}

/// A random origin for a string that travels in `direction`: on the near
/// edge, at a random place within the bounds across the direction of travel.
pub fn xy_by_direction(direction: Direction, bounds: TerminalBounds) -> (origin: Position)
    requires
        can_spawn(direction, bounds),
    ensures
        is_spawn_origin(direction, bounds, origin),
{
    let limit = match direction {
        Direction::Down | Direction::Up => bounds.width,
        Direction::Left | Direction::Right => bounds.height,
    };
    let across = random_in(0, limit as usize);
    edge_origin(direction, bounds, across as u16)
}

/// A string that is about to fall: its characters, where it starts and
/// which way it goes.
#[derive(Debug, PartialEq, Eq)]
pub struct FallingString {
    pub text: String,
    pub origin: Position,
    pub direction: Direction,
}

impl FallingString {
    /// Whether this string could have been spawned for the given run.
    pub open spec fn spawned_for(
        &self,
        direction: Direction,
        alphabet: Alphabet,
        bounds: TerminalBounds,
    ) -> bool {
        &&& MIN_LENGTH <= self.text@.len() < MAX_LENGTH
        &&& drawn_from(self.text@, alphabet)
        &&& self.direction == direction
        &&& is_spawn_origin(direction, bounds, self.origin)
    }

    /// A new string for the rain: between `MIN_LENGTH` and `MAX_LENGTH - 1`
    /// characters of the alphabet, from a random place on the near edge.
    pub fn spawn(direction: Direction, alphabet: Alphabet, bounds: TerminalBounds) -> (string:
        FallingString)
        requires
            can_spawn(direction, bounds),
        ensures
            string.spawned_for(direction, alphabet, bounds),
    {
        let length = random_in(MIN_LENGTH, MAX_LENGTH);
        let text = random_string(length, alphabet);
        let origin = xy_by_direction(direction, bounds);
        FallingString { text, origin, direction }
    }
}

/// The strings of one batch, each spawned on its own.
pub fn spawn_batch(direction: Direction, alphabet: Alphabet, bounds: TerminalBounds) -> (batch: Vec<
    FallingString,
>)
    requires
        can_spawn(direction, bounds),
    ensures
        batch@.len() == BATCH_SIZE,
        forall|i: int|
            0 <= i < batch@.len() ==> (#[trigger] batch@[i]).spawned_for(direction, alphabet, bounds),
{
    let mut batch: Vec<FallingString> = Vec::new();
    while batch.len() < BATCH_SIZE
        invariant
            batch@.len() <= BATCH_SIZE,
            can_spawn(direction, bounds),
            forall|i: int|
                0 <= i < batch@.len() ==> (#[trigger] batch@[i]).spawned_for(
                    direction,
                    alphabet,
                    bounds,
                ),
        decreases BATCH_SIZE - batch@.len(),
    {
        batch.push(FallingString::spawn(direction, alphabet, bounds));
    }
    batch
}

} // verus!
