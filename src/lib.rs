//! The simulation core of a falling-block puzzle: the playfield, the falling
//! piece, gravity, collisions and settling.

pub mod play_space;
pub mod space;
pub mod tetromino;

pub use play_space::PlaySpace;
pub use space::{Action, Color, Space, SpaceState, COLUMNS, ROWS};
pub use tetromino::{Shape, Tetromino};
