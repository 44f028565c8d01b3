//! A verified snake-game engine: directions and segment textures, the snake's
//! body and movement, the board with its per-tick update policy, and a render
//! buffer that rasterizes the state into a boxed text frame.

pub mod buffer;
pub mod field;
pub mod geometry;
pub mod snake;
