//! A verified falling-block puzzle engine: piece geometry and rotation,
//! collision checking against a bounded well, piece locking, and the
//! event-driven state transition that a game loop applies.

pub mod game;
pub mod point;
pub mod shapes;
pub mod tetromino;
pub mod well;
