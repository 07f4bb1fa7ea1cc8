//! The four players.

use vstd::prelude::*;

verus! {

/// One of the four players, named after the seats at the table.
#[derive(Copy, Clone, Debug, Eq, Hash, PartialEq, Structural)]
pub enum Player {
    North,
    West,
    East,
    South,
}

impl Player {
    /// The name a player is shown under.
    pub open spec fn spec_name(&self) -> &'static str {
        match self {
            Player::North => "North",
            Player::West => "West",
            Player::East => "East",
            Player::South => "South",
        }
    }

    /// Get the name to show for this player.
    #[verifier::when_used_as_spec(spec_name)]
    #[must_use]
    pub fn name(&self) -> (name: &'static str)
        ensures
            name@ == self.name()@,
    {
        match self {
            Player::North => "North",
            Player::West => "West",
            Player::East => "East",
            Player::South => "South",
        }
    }
}

} // verus!
