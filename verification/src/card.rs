//! Ranks, suits and playing cards.

use std::cmp::Ordering;
use vstd::prelude::*;
use vstd::std_specs::cmp::PartialOrdSpecImpl;

verus! {

/// A card's value, Two through Ace.
#[derive(Clone, Copy, Debug, Eq, Hash, Ord, PartialEq, Structural)]
pub enum Rank {
    // Lowest to highest, so that the derived `Ord` agrees with `value`.
    Two,
    Three,
    Four,
    Five,
    Six,
    Seven,
    Eight,
    Nine,
    Ten,
    Jack,
    Queen,
    King,
    Ace,
}

impl Rank {
    /// The number a rank counts for: 2 for `Two` up to 10 for `Ten`, then
    /// 11, 12, 13 and 14 for `Jack`, `Queen`, `King` and `Ace`.
    pub open spec fn spec_value(&self) -> u8 {
        match self {
            Rank::Two => 2,
            Rank::Three => 3,
            Rank::Four => 4,
            Rank::Five => 5,
            Rank::Six => 6,
            Rank::Seven => 7,
            Rank::Eight => 8,
            Rank::Nine => 9,
            Rank::Ten => 10,
            Rank::Jack => 11,
            Rank::Queen => 12,
            Rank::King => 13,
            Rank::Ace => 14,
        }
    }

    /// Get the number this rank counts for, from 2 to 14.
    #[verifier::when_used_as_spec(spec_value)]
    #[must_use]
    pub fn value(&self) -> (n: u8)
        ensures
            n == self.value(),
            2 <= n <= 14,
    {
        match self {
            Rank::Two => 2,
            Rank::Three => 3,
            Rank::Four => 4,
            Rank::Five => 5,
            Rank::Six => 6,
            Rank::Seven => 7,
            Rank::Eight => 8,
            Rank::Nine => 9,
            Rank::Ten => 10,
            Rank::Jack => 11,
            Rank::Queen => 12,
            Rank::King => 13,
            Rank::Ace => 14,
        }
    }

    /// How `self` stands to `other` in the order of ranks.
    pub open spec fn order(self, other: Rank) -> Ordering {
        if self.value() < other.value() {
            Ordering::Less
        } else if self.value() == other.value() {
            Ordering::Equal
        } else {
            Ordering::Greater
        }
    }

    /// Any two ranks can be compared, and they compare as their values do.
    /// This is what `<`, `<=`, `>` and `>=` between ranks go by.
    pub proof fn lemma_comparison_is_total(a: Rank, b: Rank)
        ensures
            vstd::std_specs::cmp::PartialOrdSpec::partial_cmp_spec(&a, &b) == Some(a.order(b)),
            a.order(b) == Ordering::Less <==> a.value() < b.value(),
            a.order(b) == Ordering::Equal <==> a.value() == b.value(),
            a.order(b) == Ordering::Greater <==> a.value() > b.value(),
    {
    }

    /// Ranks with the same value are the same rank.
    pub proof fn lemma_value_injective(a: Rank, b: Rank)
        requires
            a.value() == b.value(),
        ensures
            a == b,
    {
    }

    /// The order of ranks is the listed one: each rank is below the next,
    /// from `Two` up to `Ace`.
    pub proof fn lemma_order_is_listed()
        ensures
            Rank::Two.order(Rank::Three) == Ordering::Less,
            Rank::Three.order(Rank::Four) == Ordering::Less,
            Rank::Four.order(Rank::Five) == Ordering::Less,
            Rank::Five.order(Rank::Six) == Ordering::Less,
            Rank::Six.order(Rank::Seven) == Ordering::Less,
            Rank::Seven.order(Rank::Eight) == Ordering::Less,
            Rank::Eight.order(Rank::Nine) == Ordering::Less,
            Rank::Nine.order(Rank::Ten) == Ordering::Less,
            Rank::Ten.order(Rank::Jack) == Ordering::Less,
            Rank::Jack.order(Rank::Queen) == Ordering::Less,
            Rank::Queen.order(Rank::King) == Ordering::Less,
            Rank::King.order(Rank::Ace) == Ordering::Less,
    {
    }

    /// Comparing a rank with itself gives `Equal`, and only equal ranks
    /// compare as `Equal`.
    pub proof fn lemma_order_equal(a: Rank, b: Rank)
        ensures
            a.order(b) == Ordering::Equal <==> a == b,
    {
        if a.value() == b.value() {
            Rank::lemma_value_injective(a, b);
        }
    }

    /// Comparison is antisymmetric: swapping the two ranks turns `Less` into
    /// `Greater` and back, so two ranks that are each at most the other are
    /// equal.
    pub proof fn lemma_order_antisymmetric(a: Rank, b: Rank)
        ensures
            a.order(b) == Ordering::Less <==> b.order(a) == Ordering::Greater,
            a.order(b) != Ordering::Greater && b.order(a) != Ordering::Greater ==> a == b,
    {
        if a.value() == b.value() {
            Rank::lemma_value_injective(a, b);
        }
    }

    /// Comparison is transitive, strictly and weakly.
    pub proof fn lemma_order_transitive(a: Rank, b: Rank, c: Rank)
        ensures
            a.order(b) == Ordering::Less && b.order(c) == Ordering::Less ==> a.order(c)
                == Ordering::Less,
            a.order(b) != Ordering::Greater && b.order(c) != Ordering::Greater ==> a.order(c)
                != Ordering::Greater,
    {
    }
}

impl PartialOrd for Rank {
    fn partial_cmp(&self, other: &Rank) -> (r: Option<Ordering>) {
        let a: u8 = self.value();
        let b: u8 = other.value();
        if a < b {
            Some(Ordering::Less)
        } else if a == b {
            Some(Ordering::Equal)
        } else {
            Some(Ordering::Greater)
        }
    }
}

impl PartialOrdSpecImpl for Rank {
    open spec fn obeys_partial_cmp_spec() -> bool {
        true
    }

    open spec fn partial_cmp_spec(&self, other: &Rank) -> Option<Ordering> {
        Some(self.order(*other))
    }
}

/// A card's suit.
#[derive(Clone, Copy, Debug, Eq, Hash, PartialEq, Structural)]
pub enum Suit {
    Clubs,
    Diamonds,
    Hearts,
    Spades,
}

/// A playing card, with a suit and rank.
#[derive(Clone, Copy, Debug, Eq, Hash, PartialEq, Structural)]
pub struct Card {
    rank: Rank,
    suit: Suit,
}

impl Card {
    /// The card's rank.
    pub closed spec fn spec_rank(&self) -> Rank {
        self.rank
    }

    /// The card's suit.
    pub closed spec fn spec_suit(&self) -> Suit {
        self.suit
    }

    /// Make the card of the given rank and suit.
    #[must_use]
    pub fn from_rank_and_suit(rank: Rank, suit: Suit) -> (card: Card)
        ensures
            card.rank() == rank,
            card.suit() == suit,
    {
        Card { rank, suit }
    }

    /// Get the card's rank.
    #[verifier::when_used_as_spec(spec_rank)]
    #[must_use]
    pub fn rank(&self) -> (rank: Rank)
        ensures
            rank == self.rank(),
    {
        self.rank
    }

    /// Get the card's suit.
    #[verifier::when_used_as_spec(spec_suit)]
    #[must_use]
    pub fn suit(&self) -> (suit: Suit)
        ensures
            suit == self.suit(),
    {
        self.suit
    }

    /// A card is its rank and suit and nothing more: two cards that agree
    /// in both are the same card.
    pub proof fn lemma_same_rank_and_suit(a: Card, b: Card)
        requires
            a.rank() == b.rank(),
            a.suit() == b.suit(),
        ensures
            a == b,
    {
    }
}

} // verus!
