use mario_clock::clock::fields_for_rtc;
use mario_clock::clock::rtc_datetime_from_timestamp;
use mario_clock::clock::rtc_datetime_to_timestamp;
use mario_clock::clock::CivilTime;
use mario_clock::clock::Clock;
use mario_clock::clock::ClockError;
use mario_clock::clock::RtcDateTime;
use mario_clock::clock::TimeOfDay;
use mario_clock::clock::TimeStampGen;
use mario_clock::exchange::RefreshMeter;
use mario_clock::exchange::FPS_INTERVAL_US;

fn rtc(year: u8, month: u8, day: u8, hours: u8, minutes: u8, seconds: u8) -> RtcDateTime {
    RtcDateTime { year, month, weekday: 0, day, hours, minutes, seconds }
}

#[test]
fn rtc_fields_become_a_timestamp() {
    assert_eq!(rtc_datetime_to_timestamp(rtc(24, 1, 1, 0, 0, 0)), Some(1_704_067_200_000_000));
    assert_eq!(rtc_datetime_to_timestamp(rtc(0, 1, 1, 0, 0, 0)), Some(946_684_800_000_000));
    assert_eq!(rtc_datetime_to_timestamp(rtc(24, 2, 29, 12, 34, 56)), Some(1_709_210_096_000_000));
    assert_eq!(
        rtc_datetime_to_timestamp(rtc(255, 12, 31, 23, 59, 59)),
        Some(9_025_257_599_000_000)
    );
}

#[test]
fn fields_that_name_no_day_or_second_give_nothing() {
    for bad in [
        rtc(24, 0, 1, 0, 0, 0),
        rtc(24, 13, 1, 0, 0, 0),
        rtc(24, 1, 0, 0, 0, 0),
        rtc(24, 4, 31, 0, 0, 0),
        rtc(23, 2, 29, 0, 0, 0),
        rtc(24, 1, 1, 24, 0, 0),
        rtc(24, 1, 1, 0, 60, 0),
        rtc(24, 1, 1, 0, 0, 60),
    ] {
        assert_eq!(rtc_datetime_to_timestamp(bad), None);
        assert_eq!(Clock::new(Some(bad)).err(), Some(ClockError::InvalidDate));
    }
}

#[test]
fn a_timestamp_becomes_rtc_fields() {
    assert_eq!(
        rtc_datetime_from_timestamp(1_704_067_200_000_000),
        Some(RtcDateTime { year: 24, month: 1, weekday: 0, day: 1, hours: 0, minutes: 0, seconds: 0 })
    );
    assert_eq!(
        rtc_datetime_from_timestamp(1_709_210_096_999_999),
        Some(RtcDateTime {
            year: 24,
            month: 2,
            weekday: 3,
            day: 29,
            hours: 12,
            minutes: 34,
            seconds: 56
        })
    );
    // A year before 2000 is cut down to what fits into the byte.
    assert_eq!(
        rtc_datetime_from_timestamp(1_000_000_000_555),
        Some(RtcDateTime {
            year: 226,
            month: 1,
            weekday: 0,
            day: 12,
            hours: 13,
            minutes: 46,
            seconds: 40
        })
    );
    assert_eq!(rtc_datetime_from_timestamp(i64::MAX), None);
    assert_eq!(rtc_datetime_from_timestamp(i64::MIN), None);
}

#[test]
fn fields_are_cut_down_to_bytes() {
    let civil = CivilTime {
        year: 2300,
        month: 12,
        day: 31,
        hour: 23,
        minute: 59,
        second: 58,
        weekday: 6,
    };
    assert_eq!(
        fields_for_rtc(civil),
        RtcDateTime { year: 44, month: 12, weekday: 6, day: 31, hours: 23, minutes: 59, seconds: 58 }
    );
    let early = CivilTime { year: 1999, ..civil };
    assert_eq!(fields_for_rtc(early).year, 255);
    let far = CivilTime { year: i32::MIN, month: 300, ..civil };
    assert_eq!(fields_for_rtc(far).year, 48);
    assert_eq!(fields_for_rtc(far).month, 44);
}

#[test]
fn the_clock_starts_from_the_rtc() {
    let clock = Clock::new(Some(rtc(24, 1, 1, 0, 0, 0))).unwrap();
    assert_eq!(clock.offset_us(), 1_704_067_200_000_000);
    assert_eq!(clock.get_time(1_500_000), Ok(1_704_067_201_500_000));
    assert_eq!(
        clock.set_rtc(),
        Ok(RtcDateTime { year: 24, month: 1, weekday: 0, day: 1, hours: 0, minutes: 0, seconds: 0 })
    );
    let blind = Clock::new(None).unwrap();
    assert_eq!(blind.offset_us(), 0);
    assert_eq!(blind.get_time(7), Ok(7));
    assert_eq!(blind.set_rtc().map(|d| (d.year, d.month, d.day, d.weekday)), Ok((226, 1, 1, 3)));
}

#[test]
fn a_correction_moves_the_clock_forward_only() {
    let mut clock = Clock::new(None).unwrap();
    assert_eq!(clock.sync_ntp(1_704_067_200_000_000), Ok(()));
    assert_eq!(clock.sync_ntp(250), Ok(()));
    assert_eq!(clock.offset_us(), 1_704_067_200_000_250);
    assert_eq!(clock.sync_ntp(-1), Err(ClockError::OutOfRange));
    assert_eq!(clock.sync_ntp(i64::MIN), Err(ClockError::OutOfRange));
    assert_eq!(clock.offset_us(), 1_704_067_200_000_250);
    assert_eq!(clock.sync_ntp(0), Ok(()));
    assert_eq!(clock.offset_us(), 1_704_067_200_000_250);
}

#[test]
fn the_offset_counts_on_from_zero() {
    let mut clock = Clock::new(None).unwrap();
    clock.sync_ntp(i64::MAX).unwrap();
    clock.sync_ntp(i64::MAX).unwrap();
    assert_eq!(clock.offset_us(), usize::MAX - 1);
    clock.sync_ntp(3).unwrap();
    assert_eq!(clock.offset_us(), 1);
}

#[test]
fn a_time_beyond_the_range_is_refused() {
    let mut clock = Clock::new(None).unwrap();
    clock.sync_ntp(i64::MAX).unwrap();
    assert_eq!(clock.get_time(0), Ok(i64::MAX));
    assert_eq!(clock.get_time(1), Err(ClockError::OutOfRange));
    assert_eq!(clock.get_time(u64::MAX), Err(ClockError::OutOfRange));
    assert_eq!(clock.get_time_in_zone(1), Err(ClockError::OutOfRange));
    assert_eq!(clock.get_time_in_zone(0), Err(ClockError::InvalidDate));
    assert_eq!(clock.set_rtc(), Err(ClockError::InvalidDate));
    clock.sync_ntp(1).unwrap();
    assert_eq!(clock.set_rtc(), Err(ClockError::OutOfRange));
}

#[test]
fn zurich_is_an_hour_ahead_in_winter_and_two_in_summer() {
    let clock = Clock::new(None).unwrap();
    assert_eq!(
        clock.get_time_in_zone(1_704_067_200_000_000),
        Ok(TimeOfDay { hour: 1, minute: 0, second: 0 })
    );
    assert_eq!(
        clock.get_time_in_zone(1_719_835_200_000_000),
        Ok(TimeOfDay { hour: 14, minute: 0, second: 0 })
    );
    // Summer time begins on 31 March 2024 at 01:00 UTC.
    assert_eq!(
        clock.get_time_in_zone(1_711_846_799_999_999),
        Ok(TimeOfDay { hour: 1, minute: 59, second: 59 })
    );
    assert_eq!(
        clock.get_time_in_zone(1_711_846_800_000_000),
        Ok(TimeOfDay { hour: 3, minute: 0, second: 0 })
    );
    let later = Clock::new(Some(rtc(24, 7, 1, 12, 0, 0))).unwrap();
    assert_eq!(
        later.get_time_in_zone(90_000_000),
        Ok(TimeOfDay { hour: 14, minute: 1, second: 30 })
    );
}

#[test]
fn timestamps_split_into_seconds_and_microseconds() {
    let mut generator = TimeStampGen::new(1_500_000);
    assert_eq!(generator.timestamp_sec(), 1);
    assert_eq!(generator.timestamp_subsec_micros(), 500_000);
    generator.init(2_700_000);
    assert_eq!(generator.timestamp_sec(), 4);
    assert_eq!(generator.timestamp_subsec_micros(), 200_000);
    let exact = TimeStampGen::new(1_704_067_200_000_000);
    assert_eq!(exact.timestamp_sec(), 1_704_067_200);
    assert_eq!(exact.timestamp_subsec_micros(), 0);
    let before = TimeStampGen::new(-1);
    assert_eq!(before.timestamp_subsec_micros(), 999_999);
    assert_eq!(TimeStampGen::new(i64::MIN).timestamp_subsec_micros(), 224_192);
    assert_eq!(TimeStampGen::new(i64::MAX).timestamp_sec(), 9_223_372_036_854);
}

#[test]
fn refreshes_are_counted_per_second() {
    assert_eq!(FPS_INTERVAL_US, 1_000_000);
    let mut meter = RefreshMeter::new(5_000);
    for i in 1..=400u64 {
        assert_eq!(meter.refreshed(5_000 + i * 2_500), None);
    }
    // Exactly one second is not yet more than a second.
    assert_eq!(meter.refreshed(1_005_000), None);
    assert_eq!(meter.refreshed(1_005_001), Some(402));
    assert_eq!(meter.refreshed(1_005_002), None);
    assert_eq!(meter.refreshed(2_005_001), None);
    assert_eq!(meter.refreshed(2_005_002), Some(3));
    // A clock that went back is waited out.
    assert_eq!(meter.refreshed(0), None);
    assert_eq!(meter.refreshed(u64::MAX), Some(2));
}
