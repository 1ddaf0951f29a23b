//! Brightness encoding by binary code modulation.
//!
//! The panel can only switch a sub-pixel fully on or fully off. Shades are produced
//! by scanning the whole frame once per brightness level and lighting a sub-pixel in
//! a pass only when its stored intensity reaches that pass's threshold, so a brighter
//! pixel stays lit through more passes. The bit depth fixes how many passes a refresh
//! takes and how far apart their thresholds are.

use vstd::prelude::*;
use vstd::arithmetic::power2::pow2;
use vstd::arithmetic::power2::lemma2_to64;
use crate::gamma::gamma_of;

verus! {

/// Why a brightness configuration was refused.
#[derive(Clone, Copy, Debug, PartialEq, Eq)]
pub enum ConfigError {
    /// The requested bit depth, which lies outside `1..=8`.
    InvalidBitDepth(u8),
}

/// The bit depths a panel can be driven with.
pub open spec fn supported(bit_depth: int) -> bool {
    1 <= bit_depth <= 8
}

/// The distance between two neighbouring thresholds: `2^(8 - bit_depth)`.
pub open spec fn step_for(bit_depth: int) -> int {
    pow2((8 - bit_depth) as nat) as int
}

/// The number of passes in one refresh: `2^bit_depth - 1`.
pub open spec fn count_for(bit_depth: int) -> int {
    pow2(bit_depth as nat) - 1
}

/// The threshold of pass `level`, capped at the largest intensity.
pub open spec fn threshold_at(step: int, level: int) -> int {
    if level * step < 255 {
        level * step
    } else {
        255
    }
}

/// Whether a sub-pixel with the stored `intensity` is lit in a pass with `threshold`.
pub open spec fn lit(intensity: u8, threshold: u8) -> bool {
    intensity >= threshold
}

/// The pass schedule derived from a bit depth.
#[derive(Clone, Copy, Debug)]
pub struct Brightness {
    bit_depth: u8,
    step: u8,
    count: u8,
}

impl Brightness {
    #[verifier::type_invariant]
    spec fn consistent(self) -> bool {
        &&& supported(self.bit_depth as int)
        &&& self.step == step_for(self.bit_depth as int)
        &&& self.count == count_for(self.bit_depth as int)
    }

    /// The bit depth this schedule was configured with.
    pub closed spec fn depth(self) -> int {
        self.bit_depth as int
    }

    /// The threshold of pass `level` under this schedule.
    pub open spec fn threshold_of(self, level: int) -> int {
        threshold_at(step_for(self.depth()), level)
    }

    /// Derives the pass schedule for `bit_depth`, refusing depths outside `1..=8`.
    pub fn configure(bit_depth: u8) -> (r: Result<Brightness, ConfigError>)
        ensures
            supported(bit_depth as int) ==> r is Ok && r->Ok_0.depth() == bit_depth,
            !supported(bit_depth as int) ==> r == Err::<Brightness, ConfigError>(
                ConfigError::InvalidBitDepth(bit_depth),
            ),
    {
        if bit_depth < 1 || bit_depth > 8 {
            return Err(ConfigError::InvalidBitDepth(bit_depth));
        }
        let shift: u8 = 8 - bit_depth;
        let wide: u16 = bit_depth as u16;
        assert(shift < 8 && (1u8 << shift) == match shift {
            0u8 => 1u8,
            1u8 => 2u8,
            2u8 => 4u8,
            3u8 => 8u8,
            4u8 => 16u8,
            5u8 => 32u8,
            6u8 => 64u8,
            _ => 128u8,
        }) by (bit_vector)
            requires
                shift < 8,
        ;
        assert(wide <= 8 && (1u16 << wide) == match wide {
            1u16 => 2u16,
            2u16 => 4u16,
            3u16 => 8u16,
            4u16 => 16u16,
            5u16 => 32u16,
            6u16 => 64u16,
            7u16 => 128u16,
            _ => 256u16,
        }) by (bit_vector)
            requires
                1 <= wide <= 8,
        ;
        proof {
            lemma2_to64();
        }
        let step: u8 = 1u8 << shift;
        let count: u8 = ((1u16 << wide) - 1) as u8;
        Ok(Brightness { bit_depth, step, count })
    }

    /// The configured bit depth.
    pub fn bit_depth(&self) -> (bits: u8)
        ensures
            bits == self.depth(),
            supported(bits as int),
    {
        proof {
            use_type_invariant(self);
        }
        self.bit_depth
    }

    /// The distance between two neighbouring thresholds.
    pub fn brightness_step(&self) -> (step: u8)
        ensures
            step == step_for(self.depth()),
    {
        proof {
            use_type_invariant(self);
        }
        self.step
    }

    /// The number of passes in one refresh.
    pub fn brightness_count(&self) -> (count: u8)
        ensures
            count == count_for(self.depth()),
    {
        proof {
            use_type_invariant(self);
        }
        self.count
    }

    /// The threshold that intensities are compared with in pass `level`.
    pub fn threshold(&self, level: u8) -> (t: u8)
        ensures
            t == self.threshold_of(level as int),
    {
        proof {
            use_type_invariant(self);
        }
        match level.checked_mul(self.step) {
            Some(product) => product,
            None => 255,
        }
    }
}

/// Compares a stored intensity with a pass threshold.
pub fn is_lit(intensity: u8, threshold: u8) -> (on: bool)
    ensures
        on == lit(intensity, threshold),
{
    intensity >= threshold
}

/// The schedule of every supported depth, written out: the step halves and the
/// pass count doubles (plus one) with each further bit.
pub proof fn lemma_schedule_values(bit_depth: int)
    requires
        supported(bit_depth),
    ensures
        step_for(bit_depth) * (count_for(bit_depth) + 1) == 256,
        bit_depth == 1 ==> step_for(bit_depth) == 128 && count_for(bit_depth) == 1,
        bit_depth == 2 ==> step_for(bit_depth) == 64 && count_for(bit_depth) == 3,
        bit_depth == 3 ==> step_for(bit_depth) == 32 && count_for(bit_depth) == 7,
        bit_depth == 4 ==> step_for(bit_depth) == 16 && count_for(bit_depth) == 15,
        bit_depth == 5 ==> step_for(bit_depth) == 8 && count_for(bit_depth) == 31,
        bit_depth == 6 ==> step_for(bit_depth) == 4 && count_for(bit_depth) == 63,
        bit_depth == 7 ==> step_for(bit_depth) == 2 && count_for(bit_depth) == 127,
        bit_depth == 8 ==> step_for(bit_depth) == 1 && count_for(bit_depth) == 255,
{
    lemma2_to64();
    let step = step_for(bit_depth);
    let passes = count_for(bit_depth) + 1;
    assert(step * passes == 256) by (nonlinear_arith)
        requires
            (step == 128 && passes == 2) || (step == 64 && passes == 4) || (step == 32 && passes
                == 8) || (step == 16 && passes == 16) || (step == 8 && passes == 32) || (step == 4
                && passes == 64) || (step == 2 && passes == 128) || (step == 1 && passes == 256),
    ;
}

/// No pass of a refresh is capped: the threshold of pass `level` is exactly
/// `level * step`, and the last one is `256 - step`.
pub proof fn lemma_threshold_exact(bit_depth: int, level: int)
    requires
        supported(bit_depth),
        1 <= level <= count_for(bit_depth),
    ensures
        threshold_at(step_for(bit_depth), level) == level * step_for(bit_depth),
        1 <= threshold_at(step_for(bit_depth), level) <= 256 - step_for(bit_depth),
{
    lemma_schedule_values(bit_depth);
    let step = step_for(bit_depth);
    let count = count_for(bit_depth);
    assert(level * step <= count * step && step <= level * step) by (nonlinear_arith)
        requires
            1 <= level <= count,
            step >= 1,
    ;
    assert(step * (count + 1) == step * count + step) by (nonlinear_arith);
    assert(count * step == step * count) by (nonlinear_arith);
}

/// Within one refresh the thresholds are applied in strictly increasing order.
pub proof fn lemma_thresholds_increase(bit_depth: int, level: int)
    requires
        supported(bit_depth),
        1 <= level < count_for(bit_depth),
    ensures
        threshold_at(step_for(bit_depth), level) < threshold_at(step_for(bit_depth), level + 1),
{
    lemma_threshold_exact(bit_depth, level);
    lemma_threshold_exact(bit_depth, level + 1);
    let step = step_for(bit_depth);
    assert((level + 1) * step == level * step + step) by (nonlinear_arith);
    lemma_schedule_values(bit_depth);
}

/// A channel written at full scale is lit in every pass of a refresh, whatever the
/// bit depth.
pub proof fn lemma_full_scale_always_lit(bit_depth: int, level: int)
    requires
        supported(bit_depth),
        1 <= level <= count_for(bit_depth),
    ensures
        lit(gamma_of(255), threshold_at(step_for(bit_depth), level) as u8),
{
    lemma_threshold_exact(bit_depth, level);
}

/// A channel written as zero is dark in every pass of a refresh.
pub proof fn lemma_black_never_lit(bit_depth: int, level: int)
    requires
        supported(bit_depth),
        1 <= level <= count_for(bit_depth),
    ensures
        !lit(gamma_of(0), threshold_at(step_for(bit_depth), level) as u8),
{
    lemma_threshold_exact(bit_depth, level);
}

} // verus!
