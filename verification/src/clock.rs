//! Wall-clock arithmetic: between the fields of a real-time clock, timestamps in
//! microseconds, and the time of day on the clock face.
//!
//! Nothing here reads a clock. The caller hands in what the hardware timer, the
//! real-time clock or a time server said, and gets back what to show or to store.
//! The calendar itself is `chrono`'s.

use vstd::prelude::*;
use chrono::Datelike;
use chrono::Timelike;

verus! {

/// Microseconds in a second.
pub const MICROS_PER_SECOND: i64 = 1_000_000;

/// The year that a real-time clock counts from.
pub const RTC_EPOCH_YEAR: i32 = 2000;

/// The fields of a battery-backed real-time clock. The year counts from 2000 and
/// the weekday from Monday, which is 0.
#[derive(Clone, Copy, Debug, PartialEq, Eq, Structural)]
pub struct RtcDateTime {
    pub year: u8,
    pub month: u8,
    pub weekday: u8,
    pub day: u8,
    pub hours: u8,
    pub minutes: u8,
    pub seconds: u8,
}

/// A date and a time of day in UTC. The weekday counts from Monday, which is 0.
#[derive(Clone, Copy, Debug, PartialEq, Eq, Structural)]
pub struct CivilTime {
    pub year: i32,
    pub month: u32,
    pub day: u32,
    pub hour: u32,
    pub minute: u32,
    pub second: u32,
    pub weekday: u8,
}

/// A time of day.
#[derive(Clone, Copy, Debug, PartialEq, Eq, Structural)]
pub struct TimeOfDay {
    pub hour: u32,
    pub minute: u32,
    pub second: u32,
}

/// The microseconds from the start of 1970 to the given second of the given day,
/// in UTC, if there is such a day and such a second.
pub uninterp spec fn utc_micros(
    year: int,
    month: int,
    day: int,
    hour: int,
    minute: int,
    second: int,
) -> Option<i64>;

/// The date and the time of day in UTC at `micros` microseconds after the start
/// of 1970, if the calendar reaches that far.
pub uninterp spec fn utc_civil(micros: int) -> Option<CivilTime>;

/// The time of day in Zurich at `micros` microseconds after the start of 1970,
/// if the calendar reaches that far.
pub uninterp spec fn zurich_time_of_day(micros: int) -> Option<TimeOfDay>;

/// The timestamp of a date and a time of day in UTC, by `chrono`:
/// `NaiveDate::from_ymd_opt`, `NaiveDate::and_hms_opt`,
/// `DateTime::from_naive_utc_and_offset` and `DateTime::timestamp_micros`.
///
/// Not verified: the result is named, not computed here. The contract adds what
/// `chrono` documents of the first two: a month, a day or a time of day outside
/// its range gives `None`.
#[verifier::external_body]
fn civil_to_micros(year: i32, month: u32, day: u32, hour: u32, minute: u32, second: u32) -> (micros:
    Option<i64>)
    ensures
        micros == utc_micros(
            year as int,
            month as int,
            day as int,
            hour as int,
            minute as int,
            second as int,
        ),
        micros is Some ==> 1 <= month <= 12 && 1 <= day <= 31 && hour <= 23 && minute <= 59
            && second <= 59,
{
    match chrono::NaiveDate::from_ymd_opt(year, month, day) {
        Some(date) => match date.and_hms_opt(hour, minute, second) {
            Some(naive) => Some(
                chrono::DateTime::<chrono::Utc>::from_naive_utc_and_offset(naive, chrono::Utc)
                    .timestamp_micros(),
            ),
            None => None,
        },
        None => None,
    }
}

/// The date and the time of day of a timestamp in UTC, by `chrono`:
/// `DateTime::from_timestamp_micros` and the accessors of `Datelike` and
/// `Timelike`.
///
/// Not verified: the result is named, not computed here. The contract adds the
/// ranges that `chrono` documents for the fields.
#[verifier::external_body]
fn micros_to_civil(micros: i64) -> (civil: Option<CivilTime>)
    ensures
        civil == utc_civil(micros as int),
        civil matches Some(t) ==> 1 <= t.month <= 12 && 1 <= t.day <= 31 && t.hour <= 23
            && t.minute <= 59 && t.second <= 59 && t.weekday <= 6,
{
    match chrono::DateTime::<chrono::Utc>::from_timestamp_micros(micros) {
        Some(t) => Some(
            CivilTime {
                year: t.year(),
                month: t.month(),
                day: t.day(),
                hour: t.hour(),
                minute: t.minute(),
                second: t.second(),
                weekday: t.weekday() as u8,
            },
        ),
        None => None,
    }
}

/// The time of day in Zurich of a timestamp, by `chrono` and `chrono_tz`:
/// `DateTime::from_timestamp_micros`, `DateTime::with_timezone` with
/// `chrono_tz::Europe::Zurich`, and the accessors of `Timelike`.
///
/// Not verified: the result is named, not computed here. The contract adds the
/// ranges that `chrono` documents for the fields.
#[verifier::external_body]
fn micros_to_zurich(micros: i64) -> (time: Option<TimeOfDay>)
    ensures
        time == zurich_time_of_day(micros as int),
        time matches Some(t) ==> t.hour <= 23 && t.minute <= 59 && t.second <= 59,
{
    match chrono::DateTime::<chrono::Utc>::from_timestamp_micros(micros) {
        Some(utc) => {
            let local = utc.with_timezone(&chrono_tz::Europe::Zurich);
            Some(TimeOfDay { hour: local.hour(), minute: local.minute(), second: local.second() })
        },
        None => None,
    }
}

/// Why a time could not be worked out.
#[derive(Clone, Copy, Debug, PartialEq, Eq, Structural)]
pub enum ClockError {
    /// The fields do not name a day and a second that exist.
    InvalidDate,
    /// A count of microseconds does not fit where it has to go.
    OutOfRange,
}

/// The date and time of day that the fields of a real-time clock stand for.
pub open spec fn rtc_micros(datetime: RtcDateTime) -> Option<i64> {
    utc_micros(
        datetime.year + RTC_EPOCH_YEAR,
        datetime.month as int,
        datetime.day as int,
        datetime.hours as int,
        datetime.minutes as int,
        datetime.seconds as int,
    )
}

/// The fields of a real-time clock for a date and a time of day: each field is
/// what fits into its byte, and the year counts from 2000.
pub open spec fn rtc_fields(civil: CivilTime) -> RtcDateTime {
    RtcDateTime {
        hours: civil.hour as u8,
        minutes: civil.minute as u8,
        seconds: civil.second as u8,
        year: (civil.year - RTC_EPOCH_YEAR) as u8,
        month: civil.month as u8,
        day: civil.day as u8,
        weekday: civil.weekday,
    }
}

/// The timestamp, in microseconds since the start of 1970, of what a real-time
/// clock says, if it says a day and a second that exist.
pub fn rtc_datetime_to_timestamp(datetime: RtcDateTime) -> (micros: Option<i64>)
    ensures
        micros == rtc_micros(datetime),
{
    let year = datetime.year as i32 + RTC_EPOCH_YEAR;
    let month = datetime.month as u32;
    let day = datetime.day as u32;
    let hour = datetime.hours as u32;
    let minute = datetime.minutes as u32;
    let second = datetime.seconds as u32;
    civil_to_micros(year, month, day, hour, minute, second)
}

/// The fields to set a real-time clock to at a timestamp, if the calendar
/// reaches that far.
pub fn rtc_datetime_from_timestamp(micros: i64) -> (datetime: Option<RtcDateTime>)
    ensures
        datetime == match utc_civil(micros as int) {
            Some(civil) => Some(rtc_fields(civil)),
            None => None,
        },
{
    match micros_to_civil(micros) {
        Some(t) => Some(fields_for_rtc(t)),
        None => None,
    }
}

/// Cuts a date and a time of day down to the fields of a real-time clock.
pub fn fields_for_rtc(t: CivilTime) -> (datetime: RtcDateTime)
    ensures
        datetime == rtc_fields(t),
{
    RtcDateTime {
        hours: #[verifier::truncate]
        (t.hour as u8),
        minutes: #[verifier::truncate]
        (t.minute as u8),
        seconds: #[verifier::truncate]
        (t.second as u8),
        year: #[verifier::truncate]
        ((t.year as i64 - RTC_EPOCH_YEAR as i64) as u8),
        month: #[verifier::truncate]
        (t.month as u8),
        day: #[verifier::truncate]
        (t.day as u8),
        weekday: t.weekday,
    }
}

/// The wall clock: the microseconds that have to be added to the time since
/// start-up to get the time since the start of 1970.
#[derive(Clone, Copy, Debug)]
pub struct Clock {
    offset_us: usize,
}

impl Clock {
    /// The offset between the time since start-up and the time since 1970, in
    /// microseconds.
    pub closed spec fn offset(&self) -> int {
        self.offset_us as int
    }

    /// The wall clock after the real-time clock was read at start-up. Without a
    /// reading the offset is zero until a time server is asked.
    pub fn new(reading: Option<RtcDateTime>) -> (r: Result<Clock, ClockError>)
        ensures
            match reading {
                None => r matches Ok(clock) && clock.offset() == 0,
                Some(datetime) => match rtc_micros(datetime) {
                    None => r == Err::<Clock, ClockError>(ClockError::InvalidDate),
                    Some(micros) => if 0 <= micros <= usize::MAX {
                        r matches Ok(clock) && clock.offset() == micros
                    } else {
                        r == Err::<Clock, ClockError>(ClockError::OutOfRange)
                    },
                },
            },
    {
        match reading {
            None => Ok(Clock { offset_us: 0 }),
            Some(datetime) => match rtc_datetime_to_timestamp(datetime) {
                None => Err(ClockError::InvalidDate),
                Some(timestamp) => {
                    if timestamp < 0 || timestamp as u64 > usize::MAX as u64 {
                        Err(ClockError::OutOfRange)
                    } else {
                        Ok(Clock { offset_us: timestamp as usize })
                    }
                },
            },
        }
    }

    /// The wall clock with a known offset, in microseconds.
    pub fn with_offset(offset_us: usize) -> (clock: Clock)
        ensures
            clock.offset() == offset_us,
    {
        Clock { offset_us }
    }

    /// The offset, in microseconds.
    pub fn offset_us(&self) -> (offset: usize)
        ensures
            offset == self.offset(),
    {
        self.offset_us
    }

    /// Takes over the correction that a time server gave, in microseconds. The
    /// offset counts on from zero where it passes the largest count; a
    /// correction backwards is refused.
    pub fn sync_ntp(&mut self, correction: i64) -> (r: Result<(), ClockError>)
        ensures
            0 <= correction <= usize::MAX ==> r is Ok && final(self).offset() == (old(self).offset()
                + correction) % (usize::MAX + 1),
            !(0 <= correction <= usize::MAX) ==> r == Err::<(), ClockError>(ClockError::OutOfRange)
                && final(self).offset() == old(self).offset(),
    {
        if correction < 0 || correction as u64 > usize::MAX as u64 {
            return Err(ClockError::OutOfRange);
        }
        let delta = correction as usize;
        let sum = self.offset_us as u128 + delta as u128;
        let modulus = usize::MAX as u128 + 1;
        self.offset_us = if sum >= modulus {
            (sum - modulus) as usize
        } else {
            sum as usize
        };
        Ok(())
    }

    /// The time since the start of 1970 at `instant_us` microseconds after
    /// start-up, in microseconds.
    pub fn get_time(&self, instant_us: u64) -> (r: Result<i64, ClockError>)
        ensures
            instant_us + self.offset() <= usize::MAX && instant_us + self.offset() <= i64::MAX ==> r
                == Ok::<i64, ClockError>((instant_us + self.offset()) as i64),
            !(instant_us + self.offset() <= usize::MAX && instant_us + self.offset() <= i64::MAX)
                ==> r == Err::<i64, ClockError>(ClockError::OutOfRange),
    {
        let sum = instant_us as u128 + self.offset_us as u128;
        if sum > usize::MAX as u128 || sum > i64::MAX as u128 {
            Err(ClockError::OutOfRange)
        } else {
            Ok(sum as i64)
        }
    }

    /// The time of day in Zurich at `instant_us` microseconds after start-up.
    pub fn get_time_in_zone(&self, instant_us: u64) -> (r: Result<TimeOfDay, ClockError>)
        ensures
            match r {
                Ok(time) => {
                    &&& instant_us + self.offset() <= usize::MAX
                    &&& instant_us + self.offset() <= i64::MAX
                    &&& zurich_time_of_day(instant_us + self.offset()) == Some(time)
                    &&& time.hour <= 23 && time.minute <= 59 && time.second <= 59
                },
                Err(ClockError::OutOfRange) => !(instant_us + self.offset() <= usize::MAX
                    && instant_us + self.offset() <= i64::MAX),
                Err(ClockError::InvalidDate) => {
                    &&& instant_us + self.offset() <= usize::MAX
                    &&& instant_us + self.offset() <= i64::MAX
                    &&& zurich_time_of_day(instant_us + self.offset()) is None
                },
            },
    {
        match self.get_time(instant_us) {
            Ok(micros) => match micros_to_zurich(micros) {
                Some(time) => Ok(time),
                None => Err(ClockError::InvalidDate),
            },
            Err(e) => Err(e),
        }
    }

    /// The fields to set the real-time clock to so that it says what the offset
    /// says.
    pub fn set_rtc(&self) -> (r: Result<RtcDateTime, ClockError>)
        ensures
            match r {
                Ok(datetime) => {
                    &&& self.offset() <= i64::MAX
                    &&& utc_civil(self.offset()) is Some
                    &&& datetime == rtc_fields(utc_civil(self.offset())->0)
                },
                Err(ClockError::OutOfRange) => self.offset() > i64::MAX,
                Err(ClockError::InvalidDate) => self.offset() <= i64::MAX && utc_civil(
                    self.offset(),
                ) is None,
            },
    {
        if self.offset_us as u64 > i64::MAX as u64 {
            return Err(ClockError::OutOfRange);
        }
        match rtc_datetime_from_timestamp(self.offset_us as i64) {
            Some(datetime) => Ok(datetime),
            None => Err(ClockError::InvalidDate),
        }
    }
}

/// The source of the timestamps that go into a request to a time server: the
/// microseconds since the start of 1970.
#[derive(Copy, Clone, Debug)]
pub struct TimeStampGen {
    val: i64,
}

impl TimeStampGen {
    /// The microseconds since the start of 1970.
    pub closed spec fn micros(&self) -> int {
        self.val as int
    }

    /// A generator that knows the offset at start-up only.
    pub fn new(boot_offset: i64) -> (generator: Self)
        ensures
            generator.micros() == boot_offset,
    {
        TimeStampGen { val: boot_offset }
    }

    /// The microseconds since the start of 1970.
    pub fn value(&self) -> (micros: i64)
        ensures
            micros == self.micros(),
    {
        self.val
    }

    /// Adds the time since start-up, in microseconds.
    pub fn init(&mut self, stamp: i64)
        requires
            i64::MIN <= old(self).micros() + stamp <= i64::MAX,
        ensures
            final(self).micros() == old(self).micros() + stamp,
    {
        self.val += stamp;
    }

    /// The whole seconds of the timestamp.
    pub fn timestamp_sec(&self) -> (seconds: u64)
        requires
            self.micros() >= 0,
        ensures
            seconds == self.micros() / (MICROS_PER_SECOND as int),
    {
        (self.val / MICROS_PER_SECOND) as u64
    }

    /// The microseconds of the timestamp beyond its whole seconds.
    pub fn timestamp_subsec_micros(&self) -> (micros: u32)
        ensures
            micros == self.micros() % (MICROS_PER_SECOND as int),
    {
        match self.val.checked_rem_euclid(MICROS_PER_SECOND) {
            Some(rest) => rest as u32,
            None => 0,
        }
    }
}

} // verus!
