pub mod board;
pub mod rules;

pub use board::Game;
pub use board::GameError;
