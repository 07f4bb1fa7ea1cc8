//! A single play.

use crate::card::Card;
use crate::player::Player;
use vstd::prelude::*;

verus! {

/// Action by a player.
#[derive(Clone, Copy, Eq, Hash, PartialEq, Structural)]
pub struct Turn {
    player: Player,
    card: Card,
}

impl Turn {
    /// The player who made this turn.
    pub closed spec fn spec_player(&self) -> Player {
        self.player
    }

    /// The card played on this turn.
    pub closed spec fn spec_card(&self) -> Card {
        self.card
    }

    /// Record that `player` played `card`.
    #[must_use]
    pub fn new(player: Player, card: Card) -> (turn: Turn)
        ensures
            turn.player() == player,
            turn.card() == card,
    {
        Turn { player, card }
    }

    /// Get the player who made this turn.
    #[verifier::when_used_as_spec(spec_player)]
    #[must_use]
    pub fn player(&self) -> (player: Player)
        ensures
            player == self.player(),
    {
        self.player
    }

    /// Get the card played on this turn.
    #[verifier::when_used_as_spec(spec_card)]
    #[must_use]
    pub fn card(&self) -> (card: Card)
        ensures
            card == self.card(),
    {
        self.card
    }
}

} // verus!
