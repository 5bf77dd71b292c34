//! A verified core for a pen-plotter rendition of a flappy-bird game: board
//! generation, collision and tick physics, rendering of game entities into
//! plotter command tokens, and chunking of those tokens under the channel's
//! line-length ceiling.

pub mod animation;
pub mod board;
pub mod game;
pub mod render;
pub mod transport;
