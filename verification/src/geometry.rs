//! Screen coordinates: where a character of a moving string stands at a
//! given step, whether that cell can be seen, and how many steps a string
//! travels before it has left the screen.

use vstd::prelude::*;
use crate::direction::Direction;

verus! {

/// A cell of the screen, counted from the top left corner.
#[derive(Clone, Copy, Debug, PartialEq, Eq, Structural)]
pub struct Position {
    pub col: u16,
    pub row: u16,
}

/// Size of the terminal in cells.
#[derive(Clone, Copy, Debug, PartialEq, Eq, Structural)]
pub struct TerminalBounds {
    pub width: u16,
    pub height: u16,
}

/// A cell can be seen when both coordinates lie strictly inside the bounds.
pub open spec fn visible_at(col: nat, row: nat, bounds: TerminalBounds) -> bool {
    col < bounds.width && row < bounds.height
}

/// `coordinate - offset`, held at zero where the offset is the larger.
pub open spec fn clamped_back(coordinate: nat, offset: nat) -> nat {
    if offset <= coordinate {
        (coordinate - offset) as nat
    } else {
        0
    }
}

/// Column of the character that stands `offset` cells from the origin.
pub open spec fn offset_col(direction: Direction, origin: Position, offset: nat) -> nat {
    match direction {
        Direction::Right => origin.col as nat + offset,
        Direction::Left => clamped_back(origin.col as nat, offset),
        Direction::Down | Direction::Up => origin.col as nat,
    }
}

/// Row of the character that stands `offset` cells from the origin.
pub open spec fn offset_row(direction: Direction, origin: Position, offset: nat) -> nat {
    match direction {
        Direction::Down => origin.row as nat + offset,
        Direction::Up => clamped_back(origin.row as nat, offset),
        Direction::Left | Direction::Right => origin.row as nat,
    }
}

/// Number of steps from the origin to the far edge along the axis of travel.
pub open spec fn travel_steps(
    direction: Direction,
    origin: Position,
    bounds: TerminalBounds,
) -> nat {
    match direction {
        Direction::Down => clamped_back(bounds.height as nat, origin.row as nat),
        Direction::Up => origin.row as nat + 1,
        Direction::Left => origin.col as nat + 1,
        Direction::Right => clamped_back(bounds.width as nat, origin.col as nat),
    }
}

impl Position {
    /// Whether this cell lies on a screen of the given size.
    pub fn is_visible(&self, bounds: TerminalBounds) -> (seen: bool)
        ensures
            seen == visible_at(self.col as nat, self.row as nat, bounds),
    {
        self.col < bounds.width && self.row < bounds.height
    }
}

/// How many steps an animation from `origin` takes. The count is zero where
/// the origin already lies at or past the far edge.
pub fn step_count(direction: Direction, origin: Position, bounds: TerminalBounds) -> (steps: u32)
    ensures
        steps == travel_steps(direction, origin, bounds),
        steps <= 0x1_0000,
{
    match direction {
        Direction::Down => bounds.height.saturating_sub(origin.row) as u32,
        Direction::Up => origin.row as u32 + 1,
        Direction::Left => origin.col as u32 + 1,
        Direction::Right => bounds.width.saturating_sub(origin.col) as u32,
    }
}

/// `coordinate + offset` where that is less than `limit`.
fn advance(coordinate: u16, offset: u128, limit: u16) -> (moved: Option<u16>)
    ensures
        match moved {
            Some(c) => c == coordinate + offset && c < limit,
            None => coordinate + offset >= limit,
        },
{
    if coordinate < limit && offset < (limit - coordinate) as u128 {
        Some(coordinate + offset as u16)
    } else {
        None
    }
}

/// `coordinate - offset`, held at zero.
fn retreat(coordinate: u16, offset: u128) -> (moved: u16)
    ensures
        moved == clamped_back(coordinate as nat, offset as nat),
{
    if offset <= coordinate as u128 {
        coordinate - offset as u16
    } else {
        0
    }
}

/// The cell of the character with index `index` at step `step`, where it can
/// be seen; `None` where it lies off the screen. The character stands
/// `step + index` cells from the origin along the direction of travel;
/// against the axis the coordinate stops at zero.
pub fn cell_position(
    direction: Direction,
    origin: Position,
    bounds: TerminalBounds,
    step: u32,
    index: usize,
) -> (cell: Option<Position>)
    ensures
        match cell {
            Some(p) => p.col == offset_col(direction, origin, (step + index) as nat)
                && p.row == offset_row(direction, origin, (step + index) as nat)
                && visible_at(p.col as nat, p.row as nat, bounds),
            None => !visible_at(
                offset_col(direction, origin, (step + index) as nat),
                offset_row(direction, origin, (step + index) as nat),
                bounds,
            ),
        },
{
    let offset: u128 = step as u128 + index as u128;
    match direction {
        Direction::Down => match advance(origin.row, offset, bounds.height) {
            Some(row) if origin.col < bounds.width => Some(Position { col: origin.col, row }),
            _ => None,
        },
        Direction::Right => match advance(origin.col, offset, bounds.width) {
            Some(col) if origin.row < bounds.height => Some(Position { col, row: origin.row }),
            _ => None,
        },
        Direction::Up => {
            let p = Position { col: origin.col, row: retreat(origin.row, offset) };
            if p.is_visible(bounds) {
                Some(p)
            } else {
                None
            }
        },
        Direction::Left => {
            let p = Position { col: retreat(origin.col, offset), row: origin.row };
            if p.is_visible(bounds) {
                Some(p)
            } else {
                None
            }
        },
    }
}

/// Motion against an axis stops at zero. Whatever the offset, a coordinate
/// is a natural number no larger than where it started; it is zero from the
/// offset on that reaches the origin's coordinate; and the coordinate across
/// the direction of travel stays that of the origin.
pub proof fn lemma_motion_stops_at_zero(direction: Direction, origin: Position, offset: nat)
    ensures
        direction == Direction::Up ==> offset_row(direction, origin, offset) <= origin.row && (
        offset >= origin.row ==> offset_row(direction, origin, offset) == 0),
        direction == Direction::Left ==> offset_col(direction, origin, offset) <= origin.col && (
        offset >= origin.col ==> offset_col(direction, origin, offset) == 0),
        direction == Direction::Down ==> offset_row(direction, origin, offset) == origin.row
            + offset,
        direction == Direction::Right ==> offset_col(direction, origin, offset) == origin.col
            + offset,
        direction == Direction::Down || direction == Direction::Up ==> offset_col(
            direction,
            origin,
            offset,
        ) == origin.col,
        direction == Direction::Left || direction == Direction::Right ==> offset_row(
            direction,
            origin,
            offset,
        ) == origin.row,
{
}

/// From an origin on the screen there is at least one step, and never more
/// than one for each value of a coordinate. At the last step the head of the
/// string stands on the far edge, and with it on the screen.
pub proof fn lemma_steps_reach_the_far_edge(
    direction: Direction,
    origin: Position,
    bounds: TerminalBounds,
)
    requires
        visible_at(origin.col as nat, origin.row as nat, bounds),
    ensures
        1 <= travel_steps(direction, origin, bounds) <= 0x1_0000,
        ({
            let last = (travel_steps(direction, origin, bounds) - 1) as nat;
            let col = offset_col(direction, origin, last);
            let row = offset_row(direction, origin, last);
            &&& visible_at(col, row, bounds)
            &&& direction == Direction::Down ==> row == bounds.height - 1
            &&& direction == Direction::Up ==> row == 0
            &&& direction == Direction::Left ==> col == 0
            &&& direction == Direction::Right ==> col == bounds.width - 1
        }),
{
}

/// Along an axis nothing comes back: once the steps of a string that moves
/// down or right are used up, none of its characters is on the screen.
pub proof fn lemma_nothing_seen_past_the_far_edge(
    direction: Direction,
    origin: Position,
    bounds: TerminalBounds,
    offset: nat,
)
    requires
        direction == Direction::Down || direction == Direction::Right,
        offset >= travel_steps(direction, origin, bounds),
    ensures
        !visible_at(
            offset_col(direction, origin, offset),
            offset_row(direction, origin, offset),
            bounds,
        ),
{
}

} // verus!
