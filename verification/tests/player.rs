use oh_hell_rs::player::Player;
use std::collections::HashMap;

#[test]
fn players_have_their_names() {
    assert_eq!(Player::North.name(), "North");
    assert_eq!(Player::West.name(), "West");
    assert_eq!(Player::East.name(), "East");
    assert_eq!(Player::South.name(), "South");
}

#[test]
fn players_can_key_a_map() {
    let mut seats = HashMap::new();
    seats.insert(Player::North, 0);
    seats.insert(Player::West, 1);
    seats.insert(Player::East, 2);
    seats.insert(Player::South, 3);
    seats.insert(Player::North, 4);
    assert_eq!(seats.len(), 4);
    assert_eq!(seats[&Player::North], 4);
    assert_eq!(seats[&Player::South], 3);
    assert_ne!(Player::East, Player::West);
}
