//! Digital rain for a terminal: the motion of falling strings, their random
//! spawning, and the scheduling rules, stated as contracts and proved.

pub mod alphabet;
pub mod args;
pub mod animation;
pub mod direction;
pub mod geometry;
pub mod motion;
pub mod number;
pub mod picture;
pub mod scheduler;
pub mod spawn;
pub mod text;
