//! Level progression: the fixed sequence of stages and the player stats
//! each one grants. One boss per level; when its life reaches zero the
//! caller advances to the next level, or wins after the last.

use vstd::prelude::*;

verus! {

#[derive(Clone, Copy, Debug, Default, PartialEq, Eq, Hash, Structural)]
pub enum Level {
    #[default]
    Tutorial,
    Phase1,
    Phase2,
    Phase3,
}

impl Level {
    /// The stage after this one; the last stage repeats itself.
    pub fn next(&self) -> (n: Level)
        ensures
            n == match *self {
                Level::Tutorial => Level::Phase1,
                Level::Phase1 => Level::Phase2,
                Level::Phase2 => Level::Phase3,
                Level::Phase3 => Level::Phase3,
            },
    {
        match self {
            Level::Tutorial => Level::Phase1,
            Level::Phase1 => Level::Phase2,
            Level::Phase2 => Level::Phase3,
            Level::Phase3 => Level::Phase3,
        }
    }

    pub fn is_last(&self) -> (r: bool)
        ensures
            r == (*self is Phase3),
    {
        match self {
            Level::Phase3 => true,
            _ => false,
        }
    }

    /// The player's starting life and ammo for this stage.
    pub fn player_stats(&self) -> (n: usize)
        ensures
            n == match *self {
                Level::Tutorial => 3int,
                Level::Phase1 => 6,
                Level::Phase2 => 9,
                Level::Phase3 => 12,
            },
    {
        match self {
            Level::Tutorial => 3,
            Level::Phase1 => 6,
            Level::Phase2 => 9,
            Level::Phase3 => 12,
        }
    }
}

} // verus!
