use mario_clock::brightness::is_lit;
use mario_clock::brightness::Brightness;
use mario_clock::brightness::ConfigError;
use mario_clock::gamma::gamma;
use mario_clock::gamma::GAMMA8;

#[test]
fn schedule_of_every_supported_depth() {
    let expected: [(u8, u8, u8); 8] = [
        (1, 128, 1),
        (2, 64, 3),
        (3, 32, 7),
        (4, 16, 15),
        (5, 8, 31),
        (6, 4, 63),
        (7, 2, 127),
        (8, 1, 255),
    ];
    for (bits, step, count) in expected {
        let b = Brightness::configure(bits).unwrap();
        assert_eq!(b.bit_depth(), bits);
        assert_eq!(b.brightness_step(), step);
        assert_eq!(b.brightness_count(), count);
    }
}

#[test]
fn depth_outside_range_is_refused() {
    assert_eq!(Brightness::configure(0).err(), Some(ConfigError::InvalidBitDepth(0)));
    assert_eq!(Brightness::configure(9).err(), Some(ConfigError::InvalidBitDepth(9)));
    assert_eq!(Brightness::configure(255).err(), Some(ConfigError::InvalidBitDepth(255)));
}

#[test]
fn thresholds_rise_by_one_step() {
    let b = Brightness::configure(4).unwrap();
    assert_eq!(b.threshold(1), 16);
    assert_eq!(b.threshold(2), 32);
    assert_eq!(b.threshold(3), 48);
    assert_eq!(b.threshold(15), 240);
    for level in 1..15u8 {
        assert!(b.threshold(level) < b.threshold(level + 1));
    }
}

#[test]
fn threshold_is_capped_beyond_the_last_pass() {
    let b = Brightness::configure(4).unwrap();
    assert_eq!(b.threshold(16), 255);
    assert_eq!(b.threshold(255), 255);
    assert_eq!(b.threshold(0), 0);
}

#[test]
fn gamma_curve_endpoints_and_order() {
    assert_eq!(gamma(0), 0);
    assert_eq!(gamma(255), 255);
    for v in 0..255u8 {
        assert!(gamma(v) <= gamma(v + 1));
    }
    assert_eq!(GAMMA8.len(), 256);
}

#[test]
fn gamma_curve_sample_values() {
    assert_eq!(gamma(27), 0);
    assert_eq!(gamma(28), 1);
    assert_eq!(gamma(127), 36);
    assert_eq!(gamma(128), 37);
    assert_eq!(gamma(254), 252);
}

#[test]
fn full_scale_is_lit_in_every_pass() {
    for bits in 1..=8u8 {
        let b = Brightness::configure(bits).unwrap();
        for level in 1..=b.brightness_count() {
            assert!(is_lit(gamma(255), b.threshold(level)));
            assert!(!is_lit(gamma(0), b.threshold(level)));
        }
    }
}

#[test]
fn half_scale_goes_dark_from_the_third_pass() {
    let b = Brightness::configure(4).unwrap();
    let half = gamma(128);
    assert!(is_lit(half, b.threshold(1)));
    assert!(is_lit(half, b.threshold(2)));
    for level in 3..=15u8 {
        assert!(!is_lit(half, b.threshold(level)));
    }
}
