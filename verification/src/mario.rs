//! The clock face: a small scene with a running clock in it.

pub mod clockface;
pub mod gfx;
