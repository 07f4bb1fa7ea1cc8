//! The trump of a hand.

use crate::card::Suit;
use vstd::prelude::*;

verus! {

/// Which suit, if any, beats the others.
#[derive(Clone, Copy, Debug, Eq, Hash, PartialEq, Structural)]
pub enum Trump {
    /// The specified suit is trump.
    Suit(Suit),
    /// There is no trump suit.
    NoTrump,
}

} // verus!
