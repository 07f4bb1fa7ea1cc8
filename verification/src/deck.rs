//! The deck of 52 cards and its shuffling.

use crate::card::{Card, Rank, Suit};
use rand::rngs::StdRng;
use rand::seq::SliceRandom;
use vstd::prelude::*;

verus! {

/// The suit found at position `i` of a fresh deck: thirteen clubs, then
/// thirteen diamonds, thirteen hearts and thirteen spades.
pub open spec fn fresh_suit(i: int) -> Suit {
    if i < 13 {
        Suit::Clubs
    } else if i < 26 {
        Suit::Diamonds
    } else if i < 39 {
        Suit::Hearts
    } else {
        Suit::Spades
    }
}

/// The value of the rank found at position `i` of a fresh deck: within each
/// suit the ace comes first and the two last.
pub open spec fn fresh_rank_value(i: int) -> int {
    14 - i % 13
}

/// Whether `cards` are the 52 cards in the order of a fresh deck.
pub open spec fn is_fresh(cards: Seq<Card>) -> bool {
    &&& cards.len() == 52
    &&& forall|i: int|
        0 <= i < 52 ==> {
            &&& (#[trigger] cards[i]).suit() == fresh_suit(i)
            &&& cards[i].rank().value() == fresh_rank_value(i)
        }
}

/// Whether `cards` are a full deck: 52 cards, no card twice, and every
/// combination of a rank and a suit among them.
pub open spec fn is_full(cards: Seq<Card>) -> bool {
    &&& cards.len() == 52
    &&& cards.no_duplicates()
    &&& forall|card: Card| cards.contains(card)
}

/// Where a fresh deck holds the card of the given rank and suit.
pub open spec fn fresh_position(rank: Rank, suit: Suit) -> int {
    let first = match suit {
        Suit::Clubs => 0int,
        Suit::Diamonds => 13int,
        Suit::Hearts => 26int,
        Suit::Spades => 39int,
    };
    first + 14 - rank.value()
}

/// A fresh deck is a full deck.
pub proof fn lemma_fresh_is_full(cards: Seq<Card>)
    requires
        is_fresh(cards),
    ensures
        is_full(cards),
{
    assert forall|card: Card| cards.contains(card) by {
        let i = fresh_position(card.rank(), card.suit());
        Rank::lemma_value_injective(cards[i].rank(), card.rank());
        Card::lemma_same_rank_and_suit(cards[i], card);
    }
}

/// Reordering a full deck gives a full deck: what holds the same cards as
/// often as a full deck does is one.
pub proof fn lemma_reordered_is_full(before: Seq<Card>, after: Seq<Card>)
    requires
        is_full(before),
        after.to_multiset() == before.to_multiset(),
    ensures
        is_full(after),
{
    vstd::seq_lib::to_multiset_len(before);
    vstd::seq_lib::to_multiset_len(after);
    before.lemma_multiset_has_no_duplicates();
    after.lemma_multiset_has_no_duplicates_conv();
    assert forall|card: Card| after.contains(card) by {
        assert(before.contains(card));
        vstd::seq_lib::to_multiset_contains(before, card);
        vstd::seq_lib::to_multiset_contains(after, card);
    }
}

/// A deck of playing cards.
#[derive(Clone, Copy, Debug, Hash)]
pub struct Deck {
    cards: [Card; 52],
}

impl View for Deck {
    type V = Seq<Card>;

    /// The cards from the first to the last.
    closed spec fn view(&self) -> Seq<Card> {
        self.cards@
    }
}

impl Deck {
    /// Every deck is a full deck, however often it was shuffled.
    #[verifier::type_invariant]
    spec fn full(&self) -> bool {
        is_full(self.cards@)
    }

    /// Create a `Deck` with the standard 52 cards.
    #[must_use]
    pub fn new() -> (deck: Deck)
        ensures
            is_fresh(deck@),
            is_full(deck@),
    {
        let cards: [Card; 52] = [
            Card::from_rank_and_suit(Rank::Ace, Suit::Clubs),
            Card::from_rank_and_suit(Rank::King, Suit::Clubs),
            Card::from_rank_and_suit(Rank::Queen, Suit::Clubs),
            Card::from_rank_and_suit(Rank::Jack, Suit::Clubs),
            Card::from_rank_and_suit(Rank::Ten, Suit::Clubs),
            Card::from_rank_and_suit(Rank::Nine, Suit::Clubs),
            Card::from_rank_and_suit(Rank::Eight, Suit::Clubs),
            Card::from_rank_and_suit(Rank::Seven, Suit::Clubs),
            Card::from_rank_and_suit(Rank::Six, Suit::Clubs),
            Card::from_rank_and_suit(Rank::Five, Suit::Clubs),
            Card::from_rank_and_suit(Rank::Four, Suit::Clubs),
            Card::from_rank_and_suit(Rank::Three, Suit::Clubs),
            Card::from_rank_and_suit(Rank::Two, Suit::Clubs),
            Card::from_rank_and_suit(Rank::Ace, Suit::Diamonds),
            Card::from_rank_and_suit(Rank::King, Suit::Diamonds),
            Card::from_rank_and_suit(Rank::Queen, Suit::Diamonds),
            Card::from_rank_and_suit(Rank::Jack, Suit::Diamonds),
            Card::from_rank_and_suit(Rank::Ten, Suit::Diamonds),
            Card::from_rank_and_suit(Rank::Nine, Suit::Diamonds),
            Card::from_rank_and_suit(Rank::Eight, Suit::Diamonds),
            Card::from_rank_and_suit(Rank::Seven, Suit::Diamonds),
            Card::from_rank_and_suit(Rank::Six, Suit::Diamonds),
            Card::from_rank_and_suit(Rank::Five, Suit::Diamonds),
            Card::from_rank_and_suit(Rank::Four, Suit::Diamonds),
            Card::from_rank_and_suit(Rank::Three, Suit::Diamonds),
            Card::from_rank_and_suit(Rank::Two, Suit::Diamonds),
            Card::from_rank_and_suit(Rank::Ace, Suit::Hearts),
            Card::from_rank_and_suit(Rank::King, Suit::Hearts),
            Card::from_rank_and_suit(Rank::Queen, Suit::Hearts),
            Card::from_rank_and_suit(Rank::Jack, Suit::Hearts),
            Card::from_rank_and_suit(Rank::Ten, Suit::Hearts),
            Card::from_rank_and_suit(Rank::Nine, Suit::Hearts),
            Card::from_rank_and_suit(Rank::Eight, Suit::Hearts),
            Card::from_rank_and_suit(Rank::Seven, Suit::Hearts),
            Card::from_rank_and_suit(Rank::Six, Suit::Hearts),
            Card::from_rank_and_suit(Rank::Five, Suit::Hearts),
            Card::from_rank_and_suit(Rank::Four, Suit::Hearts),
            Card::from_rank_and_suit(Rank::Three, Suit::Hearts),
            Card::from_rank_and_suit(Rank::Two, Suit::Hearts),
            Card::from_rank_and_suit(Rank::Ace, Suit::Spades),
            Card::from_rank_and_suit(Rank::King, Suit::Spades),
            Card::from_rank_and_suit(Rank::Queen, Suit::Spades),
            Card::from_rank_and_suit(Rank::Jack, Suit::Spades),
            Card::from_rank_and_suit(Rank::Ten, Suit::Spades),
            Card::from_rank_and_suit(Rank::Nine, Suit::Spades),
            Card::from_rank_and_suit(Rank::Eight, Suit::Spades),
            Card::from_rank_and_suit(Rank::Seven, Suit::Spades),
            Card::from_rank_and_suit(Rank::Six, Suit::Spades),
            Card::from_rank_and_suit(Rank::Five, Suit::Spades),
            Card::from_rank_and_suit(Rank::Four, Suit::Spades),
            Card::from_rank_and_suit(Rank::Three, Suit::Spades),
            Card::from_rank_and_suit(Rank::Two, Suit::Spades),
        ];
        proof {
            lemma_fresh_is_full(cards@);
        }
        Deck { cards }
    }

    /// Get a reference to the deck's cards, first to last.
    #[must_use]
    pub fn cards(&self) -> (cards: &[Card; 52])
        ensures
            cards@ == self@,
            is_full(self@),
    {
        proof {
            use_type_invariant(self);
        }
        &self.cards
    }

    /// Shuffle the `Deck` using the given source of randomness.
    pub fn shuffle(&mut self, rng: &mut StdRng)
        ensures
            final(self)@.to_multiset() == old(self)@.to_multiset(),
            final(self)@.len() == old(self)@.len(),
            is_full(final(self)@),
    {
        proof {
            use_type_invariant(&*self);
        }
        // The cards are shuffled aside and put back whole, so that the deck
        // itself is a full deck at every moment.
        let mut cards: [Card; 52] = self.cards;
        shuffle_cards(&mut cards, rng);
        proof {
            lemma_reordered_is_full(self.cards@, cards@);
        }
        self.cards = cards;
    }
}

impl Default for Deck {
    /// Create a `Deck` with the standard 52 cards.
    fn default() -> (deck: Deck)
        ensures
            is_fresh(deck@),
            is_full(deck@),
    {
        Deck::new()
    }
}

/// The standard generator of `rand`, `rand::rngs::StdRng`. Nothing is said
/// of its state.
#[verifier::external_type_specification]
#[verifier::external_body]
pub struct ExStdRng(rand::rngs::StdRng);

/// Calls `rand::seq::SliceRandom::shuffle` on the cards. That function only
/// ever swaps two elements of the slice, at positions inside it that the
/// generator picks, so whatever the generator gives, the cards afterwards
/// are the cards before in another order. Which order is not stated: it
/// depends on the generator.
#[verifier::external_body]
fn shuffle_cards(cards: &mut [Card; 52], rng: &mut StdRng)
    ensures
        final(cards)@.to_multiset() == old(cards)@.to_multiset(),
{
    cards.shuffle(rng);
}

} // verus!
