//! A game: the hands played so far.

use crate::hand::Hand;
use crate::player::Player;
use vstd::prelude::*;

verus! {

/// The hands of a game, in the order they were played.
pub struct Game {
    hands: Vec<Hand>,
}

impl Game {
    /// The hands played so far, oldest first.
    pub closed spec fn hands(&self) -> Seq<Hand> {
        self.hands@
    }

    /// The leader of the first trick of the hand added last, if there is a
    /// hand.
    pub open spec fn spec_leader_of_last_hand(&self) -> Option<Player> {
        if self.hands().len() == 0 {
            None
        } else {
            Some(self.hands().last().leader_of_first_trick())
        }
    }

    /// Start a game with no hand played.
    pub fn new() -> (game: Game)
        ensures
            game.hands() == Seq::<Hand>::empty(),
    {
        Game { hands: Vec::new() }
    }

    /// Add a hand after those already played.
    pub fn add_hand(&mut self, hand: Hand)
        ensures
            final(self).hands() == old(self).hands().push(hand),
    {
        self.hands.push(hand);
    }

    /// Get the leader of the first trick of the hand added last, or `None`
    /// if the game has no hand yet.
    #[verifier::when_used_as_spec(spec_leader_of_last_hand)]
    pub fn leader_of_last_hand(&self) -> (leader: Option<Player>)
        ensures
            leader == self.leader_of_last_hand(),
            leader is None <==> self.hands().len() == 0,
    {
        if self.hands.is_empty() {
            return None;
        }
        Some(self.hands[self.hands.len() - 1].leader_of_first_trick())
    }
}

impl Default for Game {
    /// Start a game with no hand played.
    fn default() -> (game: Game)
        ensures
            game.hands() == Seq::<Hand>::empty(),
    {
        Game::new()
    }
}

} // verus!
