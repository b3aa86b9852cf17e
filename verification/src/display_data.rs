//! What a client is shown of a battle: plain data, made from the state of
//! the game.

pub mod battle_view;
pub mod card_view;
pub mod command;
pub mod object_position;
