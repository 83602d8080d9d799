//! The four directions in which a string may travel.

use vstd::prelude::*;
use crate::text::{join3, same_text};

verus! {

/// Axis and sign of a falling string's motion.
#[derive(Clone, Copy, Debug, PartialEq, Eq, Structural)]
pub enum Direction {
    Down,
    Up,
    Left,
    Right,
}

/// The direction that a word names, if it names one.
pub open spec fn direction_named(word: Seq<char>) -> Option<Direction> {
    if word == "down"@ {
        Some(Direction::Down)
    } else if word == "up"@ {
        Some(Direction::Up)
    } else if word == "left"@ {
        Some(Direction::Left)
    } else if word == "right"@ {
        Some(Direction::Right)
    } else {
        None
    }
}

/// The message that rejects `word` as a direction.
pub open spec fn unknown_direction_message(word: Seq<char>) -> Seq<char> {
    "Error : unknown direction '"@ + word
        + "'. Valid directions : 'up', 'down', 'left', 'right' "@
}

impl Direction {
    /// Reads a direction from its lower-case name. Any other word is
    /// rejected with a message that quotes it.
    pub fn from_str(s: &str) -> (parsed: Result<Direction, String>)
        ensures
            match parsed {
                Ok(direction) => direction_named(s@) == Some(direction),
                Err(message) => direction_named(s@).is_none()
                    && message@ == unknown_direction_message(s@),
            },
    {
        if same_text(s, "down") {
            Ok(Direction::Down)
        } else if same_text(s, "up") {
            Ok(Direction::Up)
        } else if same_text(s, "left") {
            Ok(Direction::Left)
        } else if same_text(s, "right") {
            Ok(Direction::Right)
        } else {
            Err(
                join3(
                    "Error : unknown direction '",
                    s,
                    "'. Valid directions : 'up', 'down', 'left', 'right' ",
                ),
            )
        }
    }
}

} // verus!
