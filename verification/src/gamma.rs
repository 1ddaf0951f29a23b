//! Gamma correction for 8-bit colour channels.
//!
//! LEDs respond almost linearly to their duty cycle while the eye does not, so a
//! linear channel value (127 meaning "half brightness") is remapped once, when a
//! pixel is written, to the intensity that produces that impression on the panel.
//! The scan loop then only compares stored intensities with thresholds.

use vstd::prelude::*;

verus! {

/// The correction curve: entry `v` is the panel intensity for the linear value `v`.
pub const GAMMA8: [u8; 256] = [
    0, 0, 0, 0, 0, 0, 0, 0, 0, 0, 0, 0, 0, 0, 0, 0,
    0, 0, 0, 0, 0, 0, 0, 0, 0, 0, 0, 0, 1, 1, 1, 1,
    1, 1, 1, 1, 1, 1, 1, 1, 1, 2, 2, 2, 2, 2, 2, 2,
    2, 3, 3, 3, 3, 3, 3, 3, 4, 4, 4, 4, 4, 5, 5, 5,
    5, 6, 6, 6, 6, 7, 7, 7, 7, 8, 8, 8, 9, 9, 9, 10,
    10, 10, 11, 11, 11, 12, 12, 13, 13, 13, 14, 14, 15, 15, 16, 16,
    17, 17, 18, 18, 19, 19, 20, 20, 21, 21, 22, 22, 23, 24, 24, 25,
    25, 26, 27, 27, 28, 29, 29, 30, 31, 32, 32, 33, 34, 35, 35, 36,
    37, 38, 39, 39, 40, 41, 42, 43, 44, 45, 46, 47, 48, 49, 50, 50,
    51, 52, 54, 55, 56, 57, 58, 59, 60, 61, 62, 63, 64, 66, 67, 68,
    69, 70, 72, 73, 74, 75, 77, 78, 79, 81, 82, 83, 85, 86, 87, 89,
    90, 92, 93, 95, 96, 98, 99, 101, 102, 104, 105, 107, 109, 110, 112, 114,
    115, 117, 119, 120, 122, 124, 126, 127, 129, 131, 133, 135, 137, 138, 140, 142,
    144, 146, 148, 150, 152, 154, 156, 158, 160, 162, 164, 167, 169, 171, 173, 175,
    177, 180, 182, 184, 186, 189, 191, 193, 196, 198, 200, 203, 205, 208, 210, 213,
    215, 218, 220, 223, 225, 228, 231, 233, 236, 239, 241, 244, 247, 249, 252, 255,
];

/// The corrected intensity of a linear channel value.
pub open spec fn gamma_of(value: u8) -> u8 {
    GAMMA8[value as int]
}

/// Looks up the corrected intensity of `value`.
pub fn gamma(value: u8) -> (intensity: u8)
    ensures
        intensity == gamma_of(value),
{
    GAMMA8[value as usize]
}

/// The curve maps black to black and full scale to full scale.
pub proof fn lemma_gamma_endpoints()
    ensures
        gamma_of(0) == 0,
        gamma_of(255) == 255,
{
}

/// Each entry of the curve is at least the entry before it.
proof fn lemma_gamma_step(value: u8)
    requires
        value < 255,
    ensures
        gamma_of(value) <= gamma_of((value + 1) as u8),
{
}

/// The curve never decreases: a brighter input is never stored as a darker intensity.
pub proof fn lemma_gamma_monotonic(darker: u8, brighter: u8)
    requires
        darker <= brighter,
    ensures
        gamma_of(darker) <= gamma_of(brighter),
    decreases brighter - darker,
{
    if darker < brighter {
        lemma_gamma_monotonic(darker, (brighter - 1) as u8);
        lemma_gamma_step((brighter - 1) as u8);
    }
}

} // verus!
