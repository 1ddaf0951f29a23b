//! The scene side: a colour grid to compose into, fonts, and the pieces a scene is
//! built from.

pub mod display;
pub mod eventbus;
pub mod font;
pub mod game;
pub mod object;
pub mod sprite;
pub mod tile;
