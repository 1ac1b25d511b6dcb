//! A verified core for a terminal snake game: grid geometry, the snake's
//! body and movement, and the game state machine that drives ticks, turns,
//! collision detection, scoring and food placement. Terminal input and
//! output stay outside; the library hands the caller a list of draw
//! commands and takes plain key presses back.

pub mod command;
pub mod direction;
pub mod game;
pub mod points;
pub mod render;
pub mod snake;
