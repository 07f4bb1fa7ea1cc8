//! A trick, and who wins it.

use crate::card::Suit;
use crate::player::Player;
use crate::trump::Trump;
use crate::turn::Turn;
use vstd::prelude::*;

verus! {

/// Whether the turn at position `i` played a card of `suit`.
pub open spec fn follows(turns: Seq<Turn>, suit: Suit, i: int) -> bool {
    0 <= i < turns.len() && turns[i].card().suit() == suit
}

/// Whether the turn at position `i` holds the strongest card of `suit`: it is
/// of that suit, no card of that suit ranks above it, and none of that suit
/// played after it ranks as high. Among cards of equal rank, which only a
/// trick with a card played twice can hold, the one played last counts as
/// the strongest.
pub open spec fn is_highest(turns: Seq<Turn>, suit: Suit, i: int) -> bool {
    &&& follows(turns, suit, i)
    &&& forall|j: int| #[trigger]
        follows(turns, suit, j) ==> turns[j].card().rank().value() <= turns[i].card().rank().value()
    &&& forall|j: int|
        i < j && #[trigger] follows(turns, suit, j) ==> turns[j].card().rank().value()
            < turns[i].card().rank().value()
}

/// The turn that holds the strongest card of `suit`, if a card of that suit
/// was played at all.
pub open spec fn highest_of_suit(turns: Seq<Turn>, suit: Suit) -> Option<Turn> {
    if exists|i: int| follows(turns, suit, i) {
        Some(turns[choose|i: int| is_highest(turns, suit, i)])
    } else {
        None
    }
}

/// At most one position holds the strongest card of a suit.
pub proof fn lemma_highest_is_unique(turns: Seq<Turn>, suit: Suit, i: int, k: int)
    requires
        is_highest(turns, suit, i),
        is_highest(turns, suit, k),
    ensures
        i == k,
{
    assert(follows(turns, suit, i));
    assert(follows(turns, suit, k));
}

/// The position that holds the strongest card of a suit tells what
/// `highest_of_suit` is.
pub proof fn lemma_highest_of_suit(turns: Seq<Turn>, suit: Suit, i: int)
    requires
        is_highest(turns, suit, i),
    ensures
        highest_of_suit(turns, suit) == Some(turns[i]),
{
    assert(follows(turns, suit, i));
    let k = choose|k: int| is_highest(turns, suit, k);
    lemma_highest_is_unique(turns, suit, i, k);
}

/// Among the first `n` turns, of which one at least is of `suit`, finds the
/// position of the strongest card of that suit.
proof fn lemma_highest_among(turns: Seq<Turn>, suit: Suit, n: int) -> (best: int)
    requires
        0 <= n <= turns.len(),
        exists|i: int| i < n && follows(turns, suit, i),
    ensures
        best < n,
        follows(turns, suit, best),
        forall|j: int|
            j < n && #[trigger] follows(turns, suit, j) ==> turns[j].card().rank().value()
                <= turns[best].card().rank().value(),
        forall|j: int|
            best < j < n && #[trigger] follows(turns, suit, j) ==> turns[j].card().rank().value()
                < turns[best].card().rank().value(),
    decreases n,
{
    let last = n - 1;
    if exists|i: int| i < last && follows(turns, suit, i) {
        let earlier = lemma_highest_among(turns, suit, last);
        if follows(turns, suit, last) && turns[earlier].card().rank().value()
            <= turns[last].card().rank().value() {
            last
        } else {
            earlier
        }
    } else {
        last
    }
}

/// What `highest_of_suit` gives: nothing exactly when no turn is of the
/// suit, and otherwise one of the turns of that suit, which none of them
/// outranks.
pub proof fn lemma_highest_of_suit_is_highest(turns: Seq<Turn>, suit: Suit)
    ensures
        match highest_of_suit(turns, suit) {
            Some(turn) => exists|i: int| is_highest(turns, suit, i) && turns[i] == turn,
            None => forall|i: int| !follows(turns, suit, i),
        },
{
    if exists|i: int| follows(turns, suit, i) {
        let witness = choose|i: int| follows(turns, suit, i);
        assert(witness < turns.len() && follows(turns, suit, witness));
        let best = lemma_highest_among(turns, suit, turns.len() as int);
        assert(is_highest(turns, suit, best));
        lemma_highest_of_suit(turns, suit, best);
    }
}

/// Find the turn with the strongest card of `suit` among the four of a
/// trick, or `None` if no card of that suit was played.
pub fn find_highest_card_of_trick_with_suit(cards: &[Turn; 4], suit: Suit) -> (found: Option<&Turn>)
    ensures
        match found {
            Some(turn) => highest_of_suit(cards@, suit) == Some(*turn),
            None => highest_of_suit(cards@, suit) is None,
        },
{
    let mut best: Option<usize> = None;
    let mut i: usize = 0;
    while i < 4
        invariant
            i <= 4,
            match best {
                Some(b) => {
                    &&& b < i
                    &&& follows(cards@, suit, b as int)
                    &&& forall|j: int|
                        j < i && #[trigger] follows(cards@, suit, j)
                            ==> cards@[j].card().rank().value() <= cards@[b as int].card().rank().value()
                    &&& forall|j: int|
                        b < j < i && #[trigger] follows(cards@, suit, j)
                            ==> cards@[j].card().rank().value() < cards@[b as int].card().rank().value()
                },
                None => forall|j: int| j < i ==> !#[trigger] follows(cards@, suit, j),
            },
        decreases 4 - i,
    {
        if cards[i].card().suit() == suit {
            let outranked: bool = match best {
                Some(b) => cards[b].card().rank() > cards[i].card().rank(),
                None => false,
            };
            if !outranked {
                best = Some(i);
            }
        }
        i += 1;
    }
    match best {
        Some(b) => {
            proof {
                lemma_highest_of_suit(cards@, suit, b as int);
            }
            Some(&cards[b])
        },
        None => None,
    }
}

/// The four turns of one round of play, with the trump in effect.
pub struct Trick {
    cards: [Turn; 4],
    trump: Trump,
}

impl Trick {
    /// The four turns in the order of play.
    pub closed spec fn spec_cards(&self) -> &[Turn; 4] {
        &self.cards
    }

    /// The trump in effect.
    pub closed spec fn spec_trump(&self) -> Trump {
        self.trump
    }

    /// The suit of the card that was played first.
    pub open spec fn spec_lead_suit(&self) -> Suit {
        self.cards()@[0].card().suit()
    }

    /// The turn that takes the trick: the strongest trump if the hand has a
    /// trump suit and a card of it was played, and otherwise the strongest
    /// card of the suit that was led.
    pub open spec fn winning_turn(&self) -> Option<Turn> {
        let trumping = match self.trump() {
            Trump::Suit(suit) => highest_of_suit(self.cards()@, suit),
            Trump::NoTrump => None,
        };
        if trumping is Some {
            trumping
        } else {
            highest_of_suit(self.cards()@, self.lead_suit())
        }
    }

    /// The player who takes the trick.
    pub open spec fn winner(&self) -> Option<Player> {
        match self.winning_turn() {
            Some(turn) => Some(turn.player()),
            None => None,
        }
    }

    /// Every trick has a winner, and the turn that takes it is one of the
    /// four that were played, the strongest of its suit. The card that was
    /// led is of the suit that was led, so there is such a turn even where
    /// no trump was played.
    pub proof fn lemma_winning_turn_was_played(&self)
        ensures
            self.winner() is Some,
            match self.winning_turn() {
                Some(turn) => exists|i: int|
                    0 <= i < 4 && self.cards()@[i] == turn && is_highest(
                        self.cards()@,
                        turn.card().suit(),
                        i,
                    ),
                None => false,
            },
    {
        let turns = self.cards()@;
        assert(follows(turns, self.lead_suit(), 0));
        let suit = match self.trump() {
            Trump::Suit(trump) => if highest_of_suit(turns, trump) is Some {
                trump
            } else {
                self.lead_suit()
            },
            Trump::NoTrump => self.lead_suit(),
        };
        lemma_highest_of_suit_is_highest(turns, suit);
        let turn = highest_of_suit(turns, suit).unwrap();
        let i = choose|i: int| is_highest(turns, suit, i) && turns[i] == turn;
        assert(follows(turns, suit, i));
    }

    /// Make a trick of the four turns, in the order of play, under the
    /// given trump.
    #[must_use]
    pub fn new(cards: [Turn; 4], trump: Trump) -> (trick: Trick)
        ensures
            *trick.cards() == cards,
            trick.trump() == trump,
    {
        Trick { cards, trump }
    }

    /// Get a reference to the trick's cards.
    #[verifier::when_used_as_spec(spec_cards)]
    #[must_use]
    pub fn cards(&self) -> (cards: &[Turn; 4])
        ensures
            cards == self.cards(),
    {
        &self.cards
    }

    /// Get the trump suit.
    #[verifier::when_used_as_spec(spec_trump)]
    #[must_use]
    pub fn trump(&self) -> (trump: Trump)
        ensures
            trump == self.trump(),
    {
        self.trump
    }

    /// Get the suit that was led.
    #[verifier::when_used_as_spec(spec_lead_suit)]
    #[must_use]
    pub fn lead_suit(&self) -> (suit: Suit)
        ensures
            suit == self.lead_suit(),
    {
        self.cards[0].card().suit()
    }

    /// Return the player who wins the trick.
    ///
    /// The strongest trump wins if a trump was played, and otherwise the
    /// strongest card of the suit that was led. A trick always has a
    /// winner; should a card appear in it twice, the later of two equal
    /// cards counts as the stronger.
    #[must_use]
    pub fn find_winning_player(&self) -> (winner: Option<Player>)
        ensures
            winner == self.winner(),
            winner is Some,
    {
        proof {
            self.lemma_winning_turn_was_played();
        }
        if let Trump::Suit(suit) = self.trump() {
            // The winning turn is the strongest trump card, if one was played.
            if let Some(turn) = find_highest_card_of_trick_with_suit(&self.cards, suit) {
                return Some(turn.player());
            }
        }
        // The winning turn is the strongest card of the suit that was led.
        match find_highest_card_of_trick_with_suit(&self.cards, self.lead_suit()) {
            Some(turn) => Some(turn.player()),
            None => None,
        }
    }
}

} // verus!
