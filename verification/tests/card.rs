use oh_hell_rs::card::{Card, Rank, Suit};
use std::cmp::Ordering;
use std::collections::HashSet;

const RANKS: [Rank; 13] = [
    Rank::Two,
    Rank::Three,
    Rank::Four,
    Rank::Five,
    Rank::Six,
    Rank::Seven,
    Rank::Eight,
    Rank::Nine,
    Rank::Ten,
    Rank::Jack,
    Rank::Queen,
    Rank::King,
    Rank::Ace,
];

const SUITS: [Suit; 4] = [Suit::Clubs, Suit::Diamonds, Suit::Hearts, Suit::Spades];

#[test]
fn rank_cmp() {
    assert!(Rank::Ace > Rank::King);
    assert!(Rank::Ace >= Rank::King);
    assert!(Rank::Ace == Rank::Ace);
    assert!(Rank::King < Rank::Ace);
    assert!(Rank::King <= Rank::Ace);
    assert!(Rank::King > Rank::Queen);
    assert!(Rank::Queen > Rank::Jack);
    assert!(Rank::Jack > Rank::Ten);
    assert!(Rank::Ten > Rank::Nine);
    assert!(Rank::Nine > Rank::Eight);
    assert!(Rank::Eight > Rank::Seven);
    assert!(Rank::Seven > Rank::Six);
    assert!(Rank::Six > Rank::Five);
    assert!(Rank::Five > Rank::Four);
    assert!(Rank::Four > Rank::Three);
    assert!(Rank::Three > Rank::Two);
    assert!(Rank::Two < Rank::Ace);
    assert!(Rank::Ace > Rank::Two);
}

#[test]
fn mod_rank_cmp() {
    assert!(Rank::Ace > Rank::King);
    assert!(Rank::Ace >= Rank::King);
    assert!(Rank::Ace == Rank::Ace);
    assert!(Rank::King < Rank::Ace);
    assert!(Rank::King <= Rank::Ace);
    assert!(Rank::King > Rank::Queen);
    assert!(Rank::Queen > Rank::Jack);
    assert!(Rank::Jack > Rank::Ten);
    assert!(Rank::Ten > Rank::Nine);
    assert!(Rank::Nine > Rank::Eight);
    assert!(Rank::Eight > Rank::Seven);
    assert!(Rank::Seven > Rank::Six);
    assert!(Rank::Six > Rank::Five);
    assert!(Rank::Five > Rank::Four);
    assert!(Rank::Four > Rank::Three);
    assert!(Rank::Three > Rank::Two);
    assert!(Rank::Two < Rank::Ace);
    assert!(Rank::Ace > Rank::Two);
}

#[test]
fn rank_values_run_from_two_to_fourteen() {
    assert_eq!(Rank::Two.value(), 2);
    assert_eq!(Rank::Three.value(), 3);
    assert_eq!(Rank::Four.value(), 4);
    assert_eq!(Rank::Five.value(), 5);
    assert_eq!(Rank::Six.value(), 6);
    assert_eq!(Rank::Seven.value(), 7);
    assert_eq!(Rank::Eight.value(), 8);
    assert_eq!(Rank::Nine.value(), 9);
    assert_eq!(Rank::Ten.value(), 10);
    assert_eq!(Rank::Jack.value(), 11);
    assert_eq!(Rank::Queen.value(), 12);
    assert_eq!(Rank::King.value(), 13);
    assert_eq!(Rank::Ace.value(), 14);
}

#[test]
fn rank_comparison_follows_the_listed_order() {
    for (i, a) in RANKS.iter().enumerate() {
        for (j, b) in RANKS.iter().enumerate() {
            assert_eq!(a.partial_cmp(b), Some(i.cmp(&j)));
            assert_eq!(a.cmp(b), i.cmp(&j));
            assert_eq!(a < b, i < j);
            assert_eq!(a <= b, i <= j);
            assert_eq!(a > b, i > j);
            assert_eq!(a >= b, i >= j);
            assert_eq!(a == b, i == j);
        }
    }
}

#[test]
fn rank_comparison_is_antisymmetric() {
    for a in RANKS.iter() {
        for b in RANKS.iter() {
            let forth = a.partial_cmp(b).unwrap();
            let back = b.partial_cmp(a).unwrap();
            assert_eq!(forth, back.reverse());
            if forth != Ordering::Greater && back != Ordering::Greater {
                assert_eq!(a, b);
            }
        }
    }
}

#[test]
fn rank_comparison_is_transitive() {
    for a in RANKS.iter() {
        for b in RANKS.iter() {
            for c in RANKS.iter() {
                if a < b && b < c {
                    assert!(a < c);
                }
                if a <= b && b <= c {
                    assert!(a <= c);
                }
            }
        }
    }
}

#[test]
fn card_keeps_its_rank_and_suit() {
    let card = Card::from_rank_and_suit(Rank::Queen, Suit::Hearts);
    assert_eq!(card.rank(), Rank::Queen);
    assert_eq!(card.suit(), Suit::Hearts);
    for rank in RANKS.iter() {
        for suit in SUITS.iter() {
            let card = Card::from_rank_and_suit(*rank, *suit);
            assert_eq!(card.rank(), *rank);
            assert_eq!(card.suit(), *suit);
        }
    }
}

#[test]
fn cards_are_equal_when_rank_and_suit_are() {
    let queen = Card::from_rank_and_suit(Rank::Queen, Suit::Hearts);
    assert_eq!(queen, Card::from_rank_and_suit(Rank::Queen, Suit::Hearts));
    assert_ne!(queen, Card::from_rank_and_suit(Rank::King, Suit::Hearts));
    assert_ne!(queen, Card::from_rank_and_suit(Rank::Queen, Suit::Spades));
    let copy = queen;
    assert_eq!(copy, queen);
}

#[test]
fn there_are_fifty_two_distinct_cards() {
    let mut seen = HashSet::new();
    for rank in RANKS.iter() {
        for suit in SUITS.iter() {
            assert!(seen.insert(Card::from_rank_and_suit(*rank, *suit)));
        }
    }
    assert_eq!(seen.len(), 52);
    assert!(!seen.insert(Card::from_rank_and_suit(Rank::Two, Suit::Clubs)));
}

#[test]
fn suits_compare_by_equality_only() {
    for (i, a) in SUITS.iter().enumerate() {
        for (j, b) in SUITS.iter().enumerate() {
            assert_eq!(a == b, i == j);
        }
    }
}
