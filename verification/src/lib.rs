//! A snake game on a fixed grid: geometry, the snake's body, and the rules of
//! one session, stated as contracts over mathematical models.

pub mod command;
pub mod direction;
pub mod game;
pub mod point;
mod random;
pub mod rules;
pub mod snake;
