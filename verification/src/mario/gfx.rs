//! What the clock face is drawn from.

pub mod assets;
pub mod block;
pub mod font;
pub mod mario;
