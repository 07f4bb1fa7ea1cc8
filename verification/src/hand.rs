//! A hand: who led it, what was bid, and the tricks played so far.

use crate::player::Player;
use crate::trick::Trick;
use std::collections::HashMap;
use vstd::prelude::*;

verus! {

/// The key under which the bid of a player is kept.
spec fn spec_seat(player: Player) -> u8 {
    match player {
        Player::North => 0,
        Player::West => 1,
        Player::East => 2,
        Player::South => 3,
    }
}

#[verifier::when_used_as_spec(spec_seat)]
fn seat(player: Player) -> (key: u8)
    ensures
        key == seat(player),
{
    match player {
        Player::North => 0,
        Player::West => 1,
        Player::East => 2,
        Player::South => 3,
    }
}

/// The tricks of one deal, with the bids made on it.
pub struct Hand {
    leader_of_first_trick: Player,
    // One entry for each player who has bid, under the key `seat` gives.
    bids: HashMap<u8, u32>,
    tricks: Vec<Trick>,
}

impl Hand {
    /// The player who leads the first trick.
    pub closed spec fn spec_leader_of_first_trick(&self) -> Player {
        self.leader_of_first_trick
    }

    /// The bid of each player who has made one.
    pub closed spec fn bids(&self) -> Map<Player, u32> {
        Map::new(
            |player: Player| self.bids@.contains_key(seat(player)),
            |player: Player| self.bids@[seat(player)],
        )
    }

    /// The tricks played so far, oldest first.
    pub closed spec fn tricks(&self) -> Seq<Trick> {
        self.tricks@
    }

    /// What a player has bid, if anything.
    pub open spec fn spec_bid(&self, player: Player) -> Option<u32> {
        if self.bids().contains_key(player) {
            Some(self.bids()[player])
        } else {
            None
        }
    }

    /// The winner of the trick played last, if one has been played.
    pub open spec fn latest_winner(&self) -> Option<Player> {
        if self.tricks().len() == 0 {
            None
        } else {
            self.tricks().last().winner()
        }
    }

    /// Start a hand whose first trick `player` leads, with no bid made and
    /// no trick played.
    pub fn with_leader(player: Player) -> (hand: Hand)
        ensures
            hand.leader_of_first_trick() == player,
            hand.bids() == Map::<Player, u32>::empty(),
            hand.tricks() == Seq::<Trick>::empty(),
    {
        broadcast use vstd::std_specs::hash::group_hash_axioms;

        let hand = Hand {
            leader_of_first_trick: player,
            bids: HashMap::with_capacity(4),
            tricks: Vec::with_capacity(13),
        };
        assert(hand.bids() =~= Map::<Player, u32>::empty());
        hand
    }

    /// Add a trick after those already played.
    pub fn add_trick(&mut self, trick: Trick)
        ensures
            final(self).tricks() == old(self).tricks().push(trick),
            final(self).bids() == old(self).bids(),
            final(self).leader_of_first_trick() == old(self).leader_of_first_trick(),
    {
        self.tricks.push(trick)
    }

    /// Record what `bidder` bids. A bid the player made before is replaced.
    pub fn add_bid(&mut self, bidder: Player, amount: u32)
        ensures
            final(self).bids() == old(self).bids().insert(bidder, amount),
            final(self).tricks() == old(self).tricks(),
            final(self).leader_of_first_trick() == old(self).leader_of_first_trick(),
    {
        broadcast use vstd::std_specs::hash::group_hash_axioms;

        self.bids.insert(seat(bidder), amount);
        assert(self.bids() =~= old(self).bids().insert(bidder, amount));
    }

    /// Get what `player` has bid, or `None` if the player has not bid.
    #[verifier::when_used_as_spec(spec_bid)]
    #[must_use]
    pub fn bid(&self, player: Player) -> (bid: Option<u32>)
        ensures
            bid == self.bid(player),
    {
        broadcast use vstd::std_specs::hash::group_hash_axioms;

        match self.bids.get(&seat(player)) {
            Some(amount) => Some(*amount),
            None => None,
        }
    }

    /// Get the leader of the first trick.
    #[verifier::when_used_as_spec(spec_leader_of_first_trick)]
    pub fn leader_of_first_trick(&self) -> (leader: Player)
        ensures
            leader == self.leader_of_first_trick(),
    {
        self.leader_of_first_trick
    }

    /// Get the winner of the trick played last, or `None` if no trick has
    /// been played yet.
    pub fn winner_of_latest_trick(&self) -> (winner: Option<Player>)
        ensures
            winner == self.latest_winner(),
            winner is None <==> self.tricks().len() == 0,
    {
        let played: usize = self.tricks.len();
        if played == 0 {
            return None;
        }
        self.tricks[played - 1].find_winning_player()
    }

    /// A later bid replaces an earlier bid of the same player: after the
    /// two, the bids are what the later bid alone would have left, and it
    /// is the later amount that the player is found to have bid.
    pub proof fn lemma_later_bid_replaces(
        before: Hand,
        between: Hand,
        after: Hand,
        bidder: Player,
        earlier: u32,
        later: u32,
    )
        requires
            between.bids() == before.bids().insert(bidder, earlier),
            after.bids() == between.bids().insert(bidder, later),
        ensures
            after.bids() == before.bids().insert(bidder, later),
            after.bid(bidder) == Some(later),
    {
        assert(after.bids() =~= before.bids().insert(bidder, later));
    }
}

} // verus!
