//! Rules of the card game Oh Hell: cards, a deck, players, tricks, hands
//! and games, with the resolution of a trick as the central algorithm.

pub mod card;
pub mod deck;
pub mod game;
pub mod hand;
pub mod player;
pub mod trick;
pub mod trump;
pub mod turn;
