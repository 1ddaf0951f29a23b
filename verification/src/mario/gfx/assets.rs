//! The colours and sprites of the clock face.
//!
//! Colours are packed 5-6-5 values. A sprite is its cells row after row; a cell
//! of value 0 is transparent when the sprite is drawn on a frame.

use vstd::prelude::*;

verus! {

/// The colour of the sky, which is the background of the scene.
pub const SKY_COLOR: u16 = 0x000E;

/// Black, which is also the value of a transparent cell.
pub const BLACK: u16 = 0x0000;

/// The colour that stands for "nothing here" inside a sprite.
pub const _MASK: u16 = SKY_COLOR;

/// The red of the figure's cap.
pub const M_RED: u16 = 0xF801;

/// The figure's skin.
pub const M_SKIN: u16 = 0xfd28;

/// The figure's shoes.
pub const M_SHOES: u16 = 0xC300;

/// The figure's shirt.
pub const M_SHIRT: u16 = 0x7BCF;

/// The figure's hair.
pub const M_HAIR: u16 = 0x0000;

/// The block that shows a number, 19 cells wide.
pub const BLOCK: [u16; 352] = [
    _MASK, 0x9A40, 0x9A40, 0x9A40, 0x9A40, 0x9A40, 0x9A40, 0x9A40, 0x9A40, 0x9A40, 0x9A40,
    0x9A40, 0x9A40, 0x9A40, 0x9A40, 0x9A40, 0x9A40, 0x9A40, _MASK, 0x9A40, 0xE4E4, 0xE4E4,
    0xE4E4, 0xE4E4, 0xE4E4, 0xE4E4, 0xE4E4, 0xE4E4, 0xE4E4, 0xE4E4, 0xE4E4, 0xE4E4, 0xE4E4,
    0xE4E4, 0xE4E4, 0xE4E4, 0xE4E4, 0x0000, 0x9A40, 0xE4E4, 0x0000, 0x0000, 0xE4E4, 0xE4E4,
    0xE4E4, 0xE4E4, 0xE4E4, 0xE4E4, 0xE4E4, 0xE4E4, 0xE4E4, 0xE4E4, 0xE4E4, 0x0000, 0x0000,
    0xE4E4, 0x0000, 0x9A40, 0xE4E4, 0x0000, 0x0000, 0xE4E4, 0xE4E4, 0xE4E4, 0xE4E4, 0xE4E4,
    0xE4E4, 0xE4E4, 0xE4E4, 0xE4E4, 0xE4E4, 0xE4E4, 0x0000, 0x0000, 0xE4E4, 0x0000, 0x9A40,
    0xE4E4, 0xE4E4, 0xE4E4, 0xE4E4, 0xE4E4, 0xE4E4, 0xE4E4, 0xE4E4, 0xE4E4, 0xE4E4, 0xE4E4,
    0xE4E4, 0xE4E4, 0xE4E4, 0xE4E4, 0xE4E4, 0xE4E4, 0x0000, 0x9A40, 0xE4E4, 0xE4E4, 0xE4E4,
    0xE4E4, 0xE4E4, 0xE4E4, 0xE4E4, 0xE4E4, 0xE4E4, 0xE4E4, 0xE4E4, 0xE4E4, 0xE4E4, 0xE4E4,
    0xE4E4, 0xE4E4, 0xE4E4, 0x0000, 0x9A40, 0xE4E4, 0xE4E4, 0xE4E4, 0xE4E4, 0xE4E4, 0xE4E4,
    0xE4E4, 0xE4E4, 0xE4E4, 0xE4E4, 0xE4E4, 0xE4E4, 0xE4E4, 0xE4E4, 0xE4E4, 0xE4E4, 0xE4E4,
    0x0000, 0x9A40, 0xE4E4, 0xE4E4, 0xE4E4, 0xE4E4, 0xE4E4, 0xE4E4, 0xE4E4, 0xE4E4, 0xE4E4,
    0xE4E4, 0xE4E4, 0xE4E4, 0xE4E4, 0xE4E4, 0xE4E4, 0xE4E4, 0xE4E4, 0x0000, 0x9A40, 0xE4E4,
    0xE4E4, 0xE4E4, 0xE4E4, 0xE4E4, 0xE4E4, 0xE4E4, 0xE4E4, 0xE4E4, 0xE4E4, 0xE4E4, 0xE4E4,
    0xE4E4, 0xE4E4, 0xE4E4, 0xE4E4, 0xE4E4, 0x0000, 0x9A40, 0xE4E4, 0xE4E4, 0xE4E4, 0xE4E4,
    0xE4E4, 0xE4E4, 0xE4E4, 0xE4E4, 0xE4E4, 0xE4E4, 0xE4E4, 0xE4E4, 0xE4E4, 0xE4E4, 0xE4E4,
    0xE4E4, 0xE4E4, 0x0000, 0x9A40, 0xE4E4, 0xE4E4, 0xE4E4, 0xE4E4, 0xE4E4, 0xE4E4, 0xE4E4,
    0xE4E4, 0xE4E4, 0xE4E4, 0xE4E4, 0xE4E4, 0xE4E4, 0xE4E4, 0xE4E4, 0xE4E4, 0xE4E4, 0x0000,
    0x9A40, 0xE4E4, 0xE4E4, 0xE4E4, 0xE4E4, 0xE4E4, 0xE4E4, 0xE4E4, 0xE4E4, 0xE4E4, 0xE4E4,
    0xE4E4, 0xE4E4, 0xE4E4, 0xE4E4, 0xE4E4, 0xE4E4, 0xE4E4, 0x0000, 0x9A40, 0xE4E4, 0xE4E4,
    0xE4E4, 0xE4E4, 0xE4E4, 0xE4E4, 0xE4E4, 0xE4E4, 0xE4E4, 0xE4E4, 0xE4E4, 0xE4E4, 0xE4E4,
    0xE4E4, 0xE4E4, 0xE4E4, 0xE4E4, 0x0000, 0x9A40, 0xE4E4, 0xE4E4, 0xE4E4, 0xE4E4, 0xE4E4,
    0xE4E4, 0xE4E4, 0xE4E4, 0xE4E4, 0xE4E4, 0xE4E4, 0xE4E4, 0xE4E4, 0xE4E4, 0xE4E4, 0xE4E4,
    0xE4E4, 0x0000, 0x9A40, 0xE4E4, 0xE4E4, 0xE4E4, 0xE4E4, 0xE4E4, 0xE4E4, 0xE4E4, 0xE4E4,
    0xE4E4, 0xE4E4, 0xE4E4, 0xE4E4, 0xE4E4, 0xE4E4, 0xE4E4, 0xE4E4, 0xE4E4, 0x0000, 0x9A40,
    0xE4E4, 0x0000, 0x0000, 0xE4E4, 0xE4E4, 0xE4E4, 0xE4E4, 0xE4E4, 0xE4E4, 0xE4E4, 0xE4E4,
    0xE4E4, 0xE4E4, 0xE4E4, 0x0000, 0x0000, 0xE4E4, 0x0000, 0x9A40, 0xE4E4, 0x0000, 0x0000,
    0xE4E4, 0xE4E4, 0xE4E4, 0xE4E4, 0xE4E4, 0xE4E4, 0xE4E4, 0xE4E4, 0xE4E4, 0xE4E4, 0xE4E4,
    0x0000, 0x0000, 0xE4E4, 0x0000, 0x9A40, 0xE4E4, 0xE4E4, 0xE4E4, 0xE4E4, 0xE4E4, 0xE4E4,
    0xE4E4, 0xE4E4, 0xE4E4, 0xE4E4, 0xE4E4, 0xE4E4, 0xE4E4, 0xE4E4, 0xE4E4, 0xE4E4, 0xE4E4,
    0x0000, _MASK, 0x0000, 0x0000, 0x0000, 0x0000, 0x0000, 0x0000, 0x0000, 0x0000, 0x0000,
];

/// The bush, 21 by 9 cells.
pub const BUSH: [u16; 189] = [
    _MASK, _MASK, _MASK, _MASK, _MASK, _MASK, _MASK, _MASK, 0x0000, 0x0000, _MASK, _MASK, _MASK,
    _MASK, _MASK, _MASK, _MASK, 0x0000, 0x0000, _MASK, _MASK, _MASK, _MASK, _MASK, _MASK, _MASK,
    _MASK, _MASK, 0x0000, 0xBFE3, 0xBFE3, 0x0000, _MASK, 0x0000, _MASK, _MASK, _MASK, 0x0000,
    0xBFE3, 0xBFE3, 0x0000, _MASK, _MASK, _MASK, _MASK, _MASK, _MASK, _MASK, 0x0000, 0xBFE3,
    0xBFE3, 0xBFE3, 0xBFE3, 0x0000, 0xBFE3, 0x0000, _MASK, 0x0000, 0xBFE3, 0xBFE3, 0xBFE3,
    0xBFE3, 0x0000, _MASK, _MASK, _MASK, _MASK, _MASK, _MASK, 0x0000, 0xBFE3, 0xBFE3, 0xBFE3,
    0x0560, 0xBFE3, 0xBFE3, 0x0000, _MASK, 0x0000, 0xBFE3, 0xBFE3, 0xBFE3, 0x0560, 0xBFE3,
    _MASK, _MASK, _MASK, _MASK, _MASK, 0x0000, 0xBFE3, 0x0560, 0x0560, 0xBFE3, 0xBFE3, 0x0560,
    0xBFE3, 0xBFE3, 0x0000, 0xBFE3, 0x0560, 0x0560, 0xBFE3, 0xBFE3, 0x0560, _MASK, _MASK, _MASK,
    0x0000, 0x0000, 0xBFE3, 0x0560, 0xBFE3, 0xBFE3, 0xBFE3, 0xBFE3, 0xBFE3, 0xBFE3, 0xBFE3,
    0xBFE3, 0x0560, 0xBFE3, 0xBFE3, 0xBFE3, 0xBFE3, 0xBFE3, _MASK, _MASK, 0x0000, 0xBFE3,
    0xBFE3, 0xBFE3, 0xBFE3, 0xBFE3, 0xBFE3, 0xBFE3, 0xBFE3, 0xBFE3, 0xBFE3, 0xBFE3, 0xBFE3,
    0xBFE3, 0xBFE3, 0xBFE3, 0xBFE3, 0xBFE3, 0xBFE3, _MASK, _MASK, 0x0000, 0xBFE3, 0xBFE3,
    0xBFE3, 0xBFE3, 0xBFE3, 0xBFE3, 0xBFE3, 0xBFE3, 0xBFE3, 0xBFE3, 0xBFE3, 0xBFE3, 0xBFE3,
    0xBFE3, 0xBFE3, 0xBFE3, 0xBFE3, 0xBFE3, _MASK, 0x0000, 0xBFE3, 0xBFE3, 0xBFE3, 0xBFE3,
    0xBFE3, 0xBFE3, 0xBFE3, 0xBFE3, 0xBFE3, 0xBFE3, 0xBFE3, 0xBFE3, 0xBFE3, 0xBFE3, 0xBFE3,
    0xBFE3, 0xBFE3, 0xBFE3, 0xBFE3,
];

/// The first cloud, 13 by 12 cells.
pub const CLOUD1: [u16; 156] = [
    _MASK, 0x0000, 0x0000, 0x0000, _MASK, _MASK, _MASK, _MASK, _MASK, _MASK, _MASK, _MASK,
    _MASK, 0x0000, 0xFFFF, 0xFFFF, 0xFFFF, 0x0000, 0x0000, _MASK, _MASK, _MASK, _MASK, _MASK,
    _MASK, _MASK, 0x0000, 0xFFFF, 0xFFFF, 0xFFFF, 0xFFFF, 0xFFFF, 0x0000, _MASK, 0x0000, _MASK,
    _MASK, _MASK, _MASK, 0xFFFF, 0x3DFF, 0xFFFF, 0xFFFF, 0x3DFF, 0xFFFF, 0xFFFF, 0x0000, 0xFFFF,
    0x0000, _MASK, _MASK, _MASK, 0x3DFF, 0xFFFF, 0xFFFF, 0xFFFF, 0xFFFF, 0xFFFF, 0xFFFF, 0xFFFF,
    0xFFFF, 0xFFFF, 0x0000, _MASK, _MASK, 0xFFFF, 0xFFFF, 0xFFFF, 0xFFFF, 0xFFFF, 0xFFFF,
    0xFFFF, 0xFFFF, 0xFFFF, 0xFFFF, 0xFFFF, 0x0000, _MASK, 0xFFFF, 0xFFFF, 0xFFFF, 0xFFFF,
    0xFFFF, 0xFFFF, 0xFFFF, 0xFFFF, 0xFFFF, 0xFFFF, 0xFFFF, 0x0000, _MASK, 0xFFFF, 0xFFFF,
    0xFFFF, 0xFFFF, 0xFFFF, 0xFFFF, 0xFFFF, 0xFFFF, 0xFFFF, 0xFFFF, 0x0000, _MASK, _MASK,
    0xFFFF, 0xFFFF, 0xFFFF, 0x3DFF, 0x3DFF, 0xFFFF, 0x3DFF, 0xFFFF, 0xFFFF, 0xFFFF, 0xFFFF,
    0x0000, _MASK, 0x3DFF, 0x3DFF, 0x3DFF, 0xFFFF, 0xFFFF, 0x3DFF, 0xFFFF, 0xFFFF, 0xFFFF,
    0xFFFF, 0x0000, _MASK, _MASK, 0xFFFF, 0xFFFF, 0x0000, 0xFFFF, 0xFFFF, 0xFFFF, 0x0000,
    0x0000, 0x0000, _MASK, _MASK, _MASK, _MASK, 0x0000, 0x0000, _MASK, 0x0000, 0x0000, 0x0000,
    _MASK, _MASK, _MASK, _MASK, _MASK, _MASK, _MASK,
];

/// The second cloud, 13 by 12 cells.
pub const CLOUD2: [u16; 156] = [
    _MASK, _MASK, _MASK, _MASK, _MASK, _MASK, _MASK, 0x0000, 0x0000, 0x0000, _MASK, _MASK,
    _MASK, _MASK, _MASK, _MASK, _MASK, _MASK, _MASK, 0x0000, 0xFFFF, 0xFFFF, 0xFFFF, 0x0000,
    0x0000, _MASK, _MASK, _MASK, _MASK, _MASK, _MASK, _MASK, 0x0000, 0xFFFF, 0xFFFF, 0xFFFF,
    0xFFFF, 0xFFFF, 0x0000, _MASK, _MASK, _MASK, _MASK, _MASK, 0x0000, 0xFFFF, 0x3DFF, 0xFFFF,
    0xFFFF, 0x3DFF, 0xFFFF, 0xFFFF, _MASK, _MASK, _MASK, 0x0000, 0x0000, 0xFFFF, 0x3DFF, 0xFFFF,
    0xFFFF, 0xFFFF, 0xFFFF, 0xFFFF, 0xFFFF, _MASK, _MASK, 0x0000, 0xFFFF, 0xFFFF, 0xFFFF,
    0xFFFF, 0xFFFF, 0xFFFF, 0xFFFF, 0xFFFF, 0xFFFF, 0xFFFF, _MASK, 0x0000, 0xFFFF, 0xFFFF,
    0xFFFF, 0xFFFF, 0xFFFF, 0xFFFF, 0xFFFF, 0xFFFF, 0xFFFF, 0xFFFF, 0xFFFF, _MASK, 0xFFFF,
    0xFFFF, 0xFFFF, 0x3DFF, 0xFFFF, 0xFFFF, 0xFFFF, 0xFFFF, 0xFFFF, 0xFFFF, 0xFFFF, 0xFFFF,
    _MASK, _MASK, 0x0000, 0xFFFF, 0xFFFF, 0x3DFF, 0xFFFF, 0xFFFF, 0xFFFF, 0x3DFF, 0x3DFF,
    0xFFFF, 0x3DFF, _MASK, _MASK, _MASK, 0x0000, 0xFFFF, 0xFFFF, 0x3DFF, 0x3DFF, 0x3DFF, 0xFFFF,
    0xFFFF, 0x3DFF, 0xFFFF, _MASK, _MASK, _MASK, _MASK, 0x0000, 0x0000, 0xFFFF, 0xFFFF, 0x0000,
    0xFFFF, 0xFFFF, 0xFFFF, 0x0000, _MASK, _MASK, _MASK, _MASK, _MASK, _MASK, 0x0000, 0x0000,
    _MASK, 0x0000, 0x0000, 0x0000, _MASK,
];

/// One tile of the ground, 8 by 8 cells.
pub const GROUND: [u16; 64] = [
    0xE2C2, 0xF6B6, 0xF6B6, 0xF6B6, 0x0000, 0xE2C2, 0xF6B6, 0xE2C2, 0xF6B6, 0xE2C2, 0xE2C2,
    0xE2C2, 0x0000, 0xF6B6, 0xE2C2, 0x0000, 0xF6B6, 0xE2C2, 0xE2C2, 0xE2C2, 0x0000, 0xE2C2,
    0x0000, 0xE2C2, 0x0000, 0xE2C2, 0xE2C2, 0xE2C2, 0x0000, 0xF6B6, 0xF6B6, 0x0000, 0xF6B6,
    0x0000, 0x0000, 0xE2C2, 0x0000, 0xF6B6, 0xE2C2, 0x0000, 0xF6B6, 0xF6B6, 0xF6B6, 0x0000,
    0xF6B6, 0xE2C2, 0xE2C2, 0x0000, 0xF6B6, 0xE2C2, 0xE2C2, 0xF6B6, 0xE2C2, 0xE2C2, 0xE2C2,
    0x0000, 0xE2C2, 0x0000, 0x0000, 0xF6B6, 0x0000, 0x0000, 0x0000, 0xE2C2,
];

/// The hill, 20 by 22 cells.
pub const HILL: [u16; 439] = [
    _MASK, _MASK, _MASK, _MASK, _MASK, _MASK, _MASK, _MASK, _MASK, _MASK, _MASK, _MASK, _MASK,
    _MASK, _MASK, _MASK, _MASK, _MASK, _MASK, _MASK, _MASK, _MASK, _MASK, _MASK, _MASK, _MASK,
    _MASK, _MASK, _MASK, _MASK, _MASK, _MASK, _MASK, _MASK, _MASK, _MASK, _MASK, _MASK, _MASK,
    _MASK, _MASK, _MASK, _MASK, _MASK, _MASK, _MASK, _MASK, _MASK, _MASK, _MASK, _MASK, _MASK,
    _MASK, _MASK, _MASK, _MASK, _MASK, _MASK, _MASK, _MASK, _MASK, _MASK, _MASK, _MASK, _MASK,
    _MASK, _MASK, _MASK, _MASK, _MASK, _MASK, _MASK, _MASK, _MASK, _MASK, _MASK, _MASK, _MASK,
    _MASK, _MASK, 0x0000, 0x0000, _MASK, _MASK, _MASK, _MASK, _MASK, _MASK, _MASK, _MASK, _MASK,
    _MASK, _MASK, _MASK, _MASK, _MASK, _MASK, _MASK, _MASK, _MASK, 0x0560, 0x0560, 0x0000,
    0x0000, _MASK, _MASK, _MASK, _MASK, _MASK, _MASK, _MASK, _MASK, _MASK, _MASK, _MASK, _MASK,
    _MASK, _MASK, _MASK, _MASK, 0x0560, 0x0560, 0x0560, 0x0560, 0x0000, _MASK, _MASK, _MASK,
    _MASK, _MASK, _MASK, _MASK, _MASK, _MASK, _MASK, _MASK, _MASK, _MASK, _MASK, _MASK, 0x0560,
    0x0560, 0x0000, 0x0560, 0x0560, 0x0000, _MASK, _MASK, _MASK, _MASK, _MASK, _MASK, _MASK,
    _MASK, _MASK, _MASK, _MASK, _MASK, _MASK, _MASK, 0x0560, 0x0560, 0x0000, 0x0560, 0x0560,
    0x0560, 0x0000, _MASK, _MASK, _MASK, _MASK, _MASK, _MASK, _MASK, _MASK, _MASK, _MASK, _MASK,
    _MASK, _MASK, 0x0000, 0x0560, 0x0000, 0x0560, 0x0560, 0x0560, 0x0560, 0x0000, _MASK, _MASK,
    _MASK, _MASK, _MASK, _MASK, _MASK, _MASK, _MASK, _MASK, _MASK, _MASK, 0x0000, 0x0560,
    0x0560, 0x0560, 0x0560, 0x0560, 0x0560, 0x0560, 0x0000, _MASK, _MASK, _MASK, _MASK, _MASK,
    _MASK, _MASK, _MASK, _MASK, _MASK, _MASK, 0x0560, 0x0560, 0x0560, 0x0560, 0x0560, 0x0560,
    0x0560, 0x0560, 0x0560, 0x0000, _MASK, _MASK, _MASK, _MASK, _MASK, _MASK, _MASK, _MASK,
    _MASK, _MASK, 0x0560, 0x0560, 0x0560, 0x0560, 0x0560, 0x0560, 0x0560, 0x0560, 0x0560,
    0x0560, 0x0000, _MASK, _MASK, _MASK, _MASK, _MASK, _MASK, _MASK, _MASK, _MASK, 0x0560,
    0x0560, 0x0560, 0x0560, 0x0560, 0x0560, 0x0560, 0x0560, 0x0560, 0x0560, 0x0560, 0x0000,
    _MASK, _MASK, _MASK, _MASK, _MASK, _MASK, _MASK, _MASK, 0x0560, 0x0560, 0x0560, 0x0560,
    0x0560, 0x0560, 0x0560, 0x0560, 0x0560, 0x0560, 0x0560, 0x0560, 0x0000, _MASK, _MASK, _MASK,
    _MASK, _MASK, _MASK, _MASK, 0x0560, 0x0560, 0x0560, 0x0560, 0x0560, 0x0560, 0x0000, 0x0560,
    0x0560, 0x0560, 0x0560, 0x0560, 0x0560, 0x0000, _MASK, _MASK, _MASK, _MASK, _MASK, _MASK,
    0x0560, 0x0560, 0x0560, 0x0560, 0x0560, 0x0560, 0x0000, 0x0560, 0x0560, 0x0560, 0x0560,
    0x0560, 0x0560, 0x0560, 0x0000, _MASK, _MASK, _MASK, _MASK, _MASK, 0x0560, 0x0560, 0x0560,
    0x0560, 0x0000, 0x0560, 0x0000, 0x0560, 0x0560, 0x0560, 0x0560, 0x0560, 0x0560, 0x0560,
    0x0560, 0x0000, _MASK, _MASK, _MASK, _MASK, 0x0560, 0x0560, 0x0560, 0x0560, 0x0000, 0x0560,
    0x0560, 0x0560, 0x0560, 0x0560, 0x0560, 0x0560, 0x0560, 0x0560, 0x0560, 0x0560, 0x0000,
    _MASK, _MASK, _MASK, 0x0560, 0x0560, 0x0560, 0x0560, 0x0560, 0x0560, 0x0560, 0x0560, 0x0560,
    0x0560, 0x0560, 0x0560, 0x0560, 0x0560, 0x0560, 0x0560, 0x0560, 0x0000, _MASK, _MASK,
    0x0560, 0x0560, 0x0560, 0x0560, 0x0560, 0x0560, 0x0560, 0x0560, 0x0560, 0x0560, 0x0560,
    0x0560, 0x0560, 0x0560, 0x0560, 0x0560, 0x0560, 0x0560, 0x0000, _MASK, 0x0560, 0x0560,
    0x0560, 0x0560, 0x0560, 0x0560, 0x0560, 0x0560, 0x0560, 0x0560, 0x0560, 0x0560, 0x0560,
    0x0560, 0x0560, 0x0560, 0x0560, 0x0560, 0x0560,
];

/// The figure standing.
pub const MARIO_IDLE: [u16; 208] = [
    _MASK, _MASK, _MASK, M_RED, M_RED, M_RED, M_RED, M_RED, M_RED, _MASK, _MASK, _MASK, _MASK,
    _MASK, _MASK, M_RED, M_RED, M_RED, M_RED, M_RED, M_RED, M_RED, M_RED, M_RED, M_RED, _MASK,
    _MASK, _MASK, M_HAIR, M_HAIR, M_HAIR, M_SKIN, M_SKIN, M_HAIR, M_SKIN, M_SKIN, _MASK, _MASK,
    _MASK, _MASK, M_HAIR, M_SKIN, M_HAIR, M_SKIN, M_SKIN, M_SKIN, M_HAIR, M_SKIN, M_SKIN,
    M_SKIN, M_SKIN, _MASK, _MASK, M_HAIR, M_SKIN, M_HAIR, M_HAIR, M_SKIN, M_SKIN, M_SKIN,
    M_HAIR, M_SKIN, M_SKIN, M_SKIN, M_SKIN, _MASK, M_HAIR, M_HAIR, M_SKIN, M_SKIN, M_SKIN,
    M_SKIN, M_HAIR, M_HAIR, M_HAIR, M_HAIR, M_HAIR, _MASK, _MASK, _MASK, _MASK, M_SKIN, M_SKIN,
    M_SKIN, M_SKIN, M_SKIN, M_SKIN, M_SKIN, M_SKIN, _MASK, _MASK, _MASK, _MASK, M_SHIRT,
    M_SHIRT, M_RED, M_SHIRT, M_SHIRT, M_SHIRT, M_SHIRT, _MASK, _MASK, _MASK, _MASK, _MASK,
    M_SHIRT, M_SHIRT, M_SHIRT, M_RED, M_SHIRT, M_SHIRT, M_RED, M_SHIRT, M_SHIRT, M_SHIRT,
    M_SHIRT, _MASK, M_SHIRT, M_SHIRT, M_SHIRT, M_SHIRT, M_RED, M_RED, M_RED, M_RED, M_SHIRT,
    M_SHIRT, M_SHIRT, M_SHIRT, M_SHIRT, M_SKIN, M_SKIN, M_SHIRT, M_RED, M_SKIN, M_RED, M_RED,
    M_SKIN, M_RED, M_SHIRT, M_SKIN, M_SKIN, M_SKIN, M_SKIN, M_SKIN, M_SKIN, M_RED, M_RED, M_RED,
    M_RED, M_RED, M_RED, M_SKIN, M_SKIN, M_SKIN, M_SKIN, M_SKIN, M_SKIN, M_RED, M_RED, M_RED,
    M_RED, M_RED, M_RED, M_RED, M_RED, M_SKIN, M_SKIN, M_SKIN, _MASK, _MASK, M_RED, M_RED,
    M_RED, M_RED, _MASK, M_RED, M_RED, M_RED, M_RED, _MASK, _MASK, _MASK, M_SHOES, M_SHOES,
    M_SHOES, M_SHOES, _MASK, _MASK, _MASK, M_SHOES, M_SHOES, M_SHOES, M_SHOES, _MASK, M_SHOES,
    M_SHOES, M_SHOES, M_SHOES, M_SHOES, _MASK, _MASK, _MASK, M_SHOES, M_SHOES, M_SHOES, M_SHOES,
    M_SHOES,
];

/// Width and height of the standing figure.
pub const MARIO_IDLE_SIZE: [u8; 2] = [
    13, 16,
];

/// The figure jumping.
pub const MARIO_JUMP: [u16; 272] = [
    _MASK, _MASK, _MASK, _MASK, _MASK, _MASK, _MASK, _MASK, _MASK, _MASK, _MASK, _MASK, _MASK,
    M_SKIN, M_SKIN, M_SKIN, M_SKIN, _MASK, _MASK, _MASK, _MASK, _MASK, _MASK, M_RED, M_RED,
    M_RED, M_RED, M_RED, M_RED, _MASK, M_SKIN, M_SKIN, M_SKIN, M_SKIN, _MASK, _MASK, _MASK,
    _MASK, _MASK, M_RED, M_RED, M_RED, M_RED, M_RED, M_RED, M_RED, M_RED, M_RED, M_SKIN, M_SKIN,
    M_SKIN, _MASK, _MASK, _MASK, _MASK, _MASK, M_HAIR, M_HAIR, M_HAIR, M_SKIN, M_SKIN, M_HAIR,
    M_SKIN, M_SKIN, M_SHIRT, M_SHIRT, M_SHIRT, M_SHIRT, _MASK, _MASK, _MASK, _MASK, M_HAIR,
    M_SKIN, M_HAIR, M_SKIN, M_SKIN, M_SKIN, M_HAIR, M_SKIN, M_SKIN, M_SHIRT, M_SHIRT, M_SHIRT,
    M_SHIRT, _MASK, _MASK, _MASK, _MASK, M_HAIR, M_SKIN, M_HAIR, M_HAIR, M_SKIN, M_SKIN, M_SKIN,
    M_HAIR, M_SKIN, M_SKIN, M_SKIN, M_SHIRT, M_SHIRT, _MASK, _MASK, _MASK, _MASK, M_HAIR,
    M_HAIR, M_SKIN, M_SKIN, M_SKIN, M_SKIN, M_HAIR, M_HAIR, M_HAIR, M_HAIR, M_SHIRT, M_SHIRT,
    _MASK, _MASK, _MASK, _MASK, _MASK, _MASK, _MASK, M_SKIN, M_SKIN, M_SKIN, M_SKIN, M_SKIN,
    M_SKIN, M_SKIN, M_SHIRT, M_SHIRT, _MASK, _MASK, _MASK, _MASK, M_SHIRT, M_SHIRT, M_SHIRT,
    M_SHIRT, M_SHIRT, M_RED, M_SHIRT, M_SHIRT, M_SHIRT, M_RED, M_SHIRT, M_SHIRT, _MASK, _MASK,
    _MASK, _MASK, M_SHIRT, M_SHIRT, M_SHIRT, M_SHIRT, M_SHIRT, M_SHIRT, M_SHIRT, M_RED, M_SHIRT,
    M_SHIRT, M_SHIRT, M_RED, M_RED, _MASK, M_SHOES, M_SHOES, M_SKIN, M_SKIN, M_SHIRT, M_SHIRT,
    M_SHIRT, M_SHIRT, M_SHIRT, M_SHIRT, M_RED, M_RED, M_RED, M_RED, M_RED, M_RED, _MASK,
    M_SHOES, M_SHOES, M_SKIN, M_SKIN, M_SKIN, M_SKIN, M_RED, M_RED, M_SHIRT, M_RED, M_RED,
    M_SKIN, M_RED, M_RED, M_SKIN, M_RED, M_SHOES, M_SHOES, M_SHOES, _MASK, M_SKIN, M_SKIN,
    M_SHOES, M_RED, M_RED, M_RED, M_RED, M_RED, M_RED, M_RED, M_RED, M_RED, M_RED, M_SHOES,
    M_SHOES, M_SHOES, _MASK, _MASK, M_SHOES, M_SHOES, M_SHOES, M_RED, M_RED, M_RED, M_RED,
    M_RED, M_RED, M_RED, M_RED, M_RED, M_SHOES, M_SHOES, M_SHOES, _MASK, M_SHOES, M_SHOES,
    M_SHOES, M_RED, M_RED, M_RED, M_RED, M_RED, M_RED, M_RED, M_RED, _MASK, _MASK, _MASK, _MASK,
    _MASK, _MASK, M_SHOES, M_SHOES, _MASK, M_RED, M_RED, M_RED, M_RED, M_RED, _MASK, _MASK,
    _MASK, _MASK, _MASK, _MASK, _MASK, _MASK,
];

/// Width and height of the jumping figure.
pub const MARIO_JUMP_SIZE: [u8; 2] = [
    17, 16,
];

} // verus!
