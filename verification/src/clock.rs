//! Instants and spans of time, held as plain integers.
//!
//! A [`Moment`] is a point on the time line together with the UTC offset in
//! which its wall-clock reading is taken; a [`Span`] is a signed distance
//! between two moments. Both count nanoseconds, so every operation is exact
//! integer arithmetic. The system clock and the calendar are reached through
//! the `time` crate.

use vstd::prelude::*;

verus! {

/// Nanoseconds in one millisecond.
pub const NANOS_PER_MILLISECOND: i128 = 1_000_000;

/// Nanoseconds in one second.
pub const NANOS_PER_SECOND: i128 = 1_000_000_000;

/// Nanoseconds in one minute.
pub const NANOS_PER_MINUTE: i128 = 60_000_000_000;

/// Seconds in one hour.
pub const SECONDS_PER_HOUR: i128 = 3_600;

/// Seconds in one day.
pub const SECONDS_PER_DAY: i128 = 86_400;

/// First representable nanosecond: midnight on 1 January of the year -9999.
pub const MIN_UNIX_NANOS: i128 = -377_705_116_800_000_000_000;

/// Last representable nanosecond: the end of 31 December of the year 9999.
pub const MAX_UNIX_NANOS: i128 = 253_402_300_799_999_999_999;

/// Largest UTC offset in either direction, in seconds (25:59:59).
pub const MAX_OFFSET_SECONDS: i32 = 93_599;

/// Smallest span: its whole seconds are the least `i64`.
pub const MIN_SPAN_NANOS: i128 = -9_223_372_036_854_775_808_999_999_999;

/// Largest span: its whole seconds are the greatest `i64`.
pub const MAX_SPAN_NANOS: i128 = 9_223_372_036_854_775_807_999_999_999;

/// A signed length of time in nanoseconds.
#[derive(Clone, Copy, Debug, PartialEq, Eq, Structural)]
pub struct Span {
    pub nanos: i128,
}

/// A point in time: nanoseconds since the Unix epoch, and the UTC offset (in
/// seconds, east positive) in which its clock reading is displayed.
#[derive(Clone, Copy, Debug, PartialEq, Eq, Structural)]
pub struct Moment {
    pub unix_nanos: i128,
    pub offset_seconds: i32,
}

/// Why the local clock could not be read.
#[derive(Clone, Copy, Debug, PartialEq, Eq, Structural)]
pub enum ClockError {
    /// The system's UTC offset could not be determined.
    IndeterminateOffset,
}

/// Whether `nanos` is the length of a representable span.
pub open spec fn span_in_range(nanos: int) -> bool {
    MIN_SPAN_NANOS <= nanos <= MAX_SPAN_NANOS
}

/// Whether an instant and an offset name a representable moment: the offset
/// is at most 25:59:59 either way, and both the instant and its local clock
/// reading fall in the years -9999 to 9999.
pub open spec fn moment_in_range(unix_nanos: int, offset_seconds: int) -> bool {
    &&& -MAX_OFFSET_SECONDS <= offset_seconds <= MAX_OFFSET_SECONDS
    &&& MIN_UNIX_NANOS <= unix_nanos <= MAX_UNIX_NANOS
    &&& MIN_UNIX_NANOS <= unix_nanos + offset_seconds * NANOS_PER_SECOND <= MAX_UNIX_NANOS
}

/// Seconds since local midnight shown by a clock at the given instant and
/// offset: the local second count, reduced into one day.
pub open spec fn second_of_day(unix_nanos: int, offset_seconds: int) -> int {
    (unix_nanos / NANOS_PER_SECOND as int + offset_seconds) % SECONDS_PER_DAY as int
}

/// Hour of the day, `0..24`, on the local clock.
pub open spec fn hour_of_day(unix_nanos: int, offset_seconds: int) -> int {
    second_of_day(unix_nanos, offset_seconds) / SECONDS_PER_HOUR as int
}

/// Minute within the hour, `0..60`, on the local clock.
pub open spec fn minute_of_hour(unix_nanos: int, offset_seconds: int) -> int {
    (second_of_day(unix_nanos, offset_seconds) % SECONDS_PER_HOUR as int) / 60
}

/// The character of a decimal digit; `'0'` outside `0..10`.
pub open spec fn digit_char(d: int) -> char {
    if d == 1 {
        '1'
    } else if d == 2 {
        '2'
    } else if d == 3 {
        '3'
    } else if d == 4 {
        '4'
    } else if d == 5 {
        '5'
    } else if d == 6 {
        '6'
    } else if d == 7 {
        '7'
    } else if d == 8 {
        '8'
    } else if d == 9 {
        '9'
    } else {
        '0'
    }
}

/// A number below one hundred as exactly two decimal digits.
pub open spec fn two_digits(n: int) -> Seq<char> {
    seq![digit_char(n / 10), digit_char(n % 10)]
}

/// The reading `HH:MM` of a 24-hour clock.
pub open spec fn clock_text(hour: int, minute: int) -> Seq<char> {
    two_digits(hour) + seq![':'] + two_digits(minute)
}

impl Span {
    /// Whether the span is representable.
    pub open spec fn wf(self) -> bool {
        span_in_range(self.nanos as int)
    }

    /// The span of `nanos` nanoseconds, if that is representable.
    pub fn new(nanos: i128) -> (span: Option<Span>)
        ensures
            span_in_range(nanos as int) ==> span == Some(Span { nanos }),
            !span_in_range(nanos as int) ==> span is None,
    {
        if MIN_SPAN_NANOS <= nanos && nanos <= MAX_SPAN_NANOS {
            Some(Span { nanos })
        } else {
            None
        }
    }

    /// A whole number of minutes.
    pub fn minutes(minutes: u32) -> (span: Span)
        ensures
            span.nanos == minutes * NANOS_PER_MINUTE,
            span.wf(),
    {
        Span { nanos: minutes as i128 * NANOS_PER_MINUTE }
    }

    /// A whole number of seconds.
    pub fn seconds(seconds: i64) -> (span: Span)
        ensures
            span.nanos == seconds * NANOS_PER_SECOND,
            span.wf(),
    {
        Span { nanos: seconds as i128 * NANOS_PER_SECOND }
    }

    /// The sum of two spans, if it is representable.
    pub fn checked_add(self, other: Span) -> (sum: Option<Span>)
        requires
            self.wf(),
            other.wf(),
        ensures
            span_in_range(self.nanos + other.nanos) ==> sum == Some(
                Span { nanos: (self.nanos + other.nanos) as i128 },
            ),
            !span_in_range(self.nanos + other.nanos) ==> sum is None,
    {
        Span::new(self.nanos + other.nanos)
    }

    /// The number of whole minutes in the span, rounded toward negative
    /// infinity.
    pub fn floor_minutes(self) -> (minutes: i64)
        requires
            self.wf(),
        ensures
            minutes == self.nanos as int / NANOS_PER_MINUTE as int,
    {
        let quotient: i128 = self.nanos / NANOS_PER_MINUTE;
        let remainder: i128 = self.nanos % NANOS_PER_MINUTE;
        if remainder < 0 {
            (quotient - 1) as i64
        } else {
            quotient as i64
        }
    }
}

impl Moment {
    /// Whether the moment is representable.
    pub open spec fn wf(self) -> bool {
        moment_in_range(self.unix_nanos as int, self.offset_seconds as int)
    }

    /// The moment `nanos` nanoseconds later, in the same offset.
    pub open spec fn plus(self, nanos: int) -> Moment {
        Moment {
            unix_nanos: (self.unix_nanos + nanos) as i128,
            offset_seconds: self.offset_seconds,
        }
    }

    /// The moment at `unix_nanos` shown in the offset `offset_seconds`, if
    /// that is representable.
    pub fn new(unix_nanos: i128, offset_seconds: i32) -> (moment: Option<Moment>)
        ensures
            moment_in_range(unix_nanos as int, offset_seconds as int) ==> moment == Some(
                Moment { unix_nanos, offset_seconds },
            ),
            !moment_in_range(unix_nanos as int, offset_seconds as int) ==> moment is None,
    {
        if -MAX_OFFSET_SECONDS <= offset_seconds && offset_seconds <= MAX_OFFSET_SECONDS
            && MIN_UNIX_NANOS <= unix_nanos && unix_nanos <= MAX_UNIX_NANOS {
            let local: i128 = unix_nanos + offset_seconds as i128 * NANOS_PER_SECOND;
            if MIN_UNIX_NANOS <= local && local <= MAX_UNIX_NANOS {
                return Some(Moment { unix_nanos, offset_seconds });
            }
        }
        None
    }

    /// The signed time from `earlier` to `self`.
    pub fn since(self, earlier: Moment) -> (span: Span)
        requires
            self.wf(),
            earlier.wf(),
        ensures
            span.nanos == self.unix_nanos - earlier.unix_nanos,
            span.wf(),
    {
        Span { nanos: self.unix_nanos - earlier.unix_nanos }
    }

    /// The moment `span` later, in the same offset, if it is representable.
    pub fn checked_add(self, span: Span) -> (moment: Option<Moment>)
        requires
            self.wf(),
            span.wf(),
        ensures
            moment_in_range(self.unix_nanos + span.nanos, self.offset_seconds as int) ==> moment
                == Some(self.plus(span.nanos as int)),
            !moment_in_range(self.unix_nanos + span.nanos, self.offset_seconds as int)
                ==> moment is None,
    {
        Moment::new(self.unix_nanos + span.nanos, self.offset_seconds)
    }

    /// The current time in the system's local offset.
    ///
    /// Whether the clock can be read, and what it shows, is the system's
    /// matter: a reading that is handed out is representable, and nothing
    /// else is known of it. What is made of a reading is `from_reading`.
    pub fn now_local() -> (reading: Result<Moment, ClockError>)
        ensures
            reading matches Ok(now) ==> now.wf(),
    {
        Moment::from_reading(read_local_clock())
    }

    /// What a reading of the local clock amounts to: the moment that was
    /// read, or `IndeterminateOffset` where the system could not tell its UTC
    /// offset.
    pub fn from_reading(reading: Result<Moment, time::error::IndeterminateOffset>) -> (outcome:
        Result<Moment, ClockError>)
        ensures
            reading matches Ok(now) ==> outcome == Ok::<Moment, ClockError>(now),
            reading is Err ==> outcome == Err::<Moment, ClockError>(
                ClockError::IndeterminateOffset,
            ),
    {
        match reading {
            Ok(now) => Ok(now),
            Err(_) => Err(ClockError::IndeterminateOffset),
        }
    }

    /// Hour of the day on the local clock.
    pub fn hour(self) -> (hour: u8)
        requires
            self.wf(),
        ensures
            hour == hour_of_day(self.unix_nanos as int, self.offset_seconds as int),
            hour < 24,
    {
        local_hour(self.unix_nanos, self.offset_seconds)
    }

    /// Minute within the hour on the local clock.
    pub fn minute(self) -> (minute: u8)
        requires
            self.wf(),
        ensures
            minute == minute_of_hour(self.unix_nanos as int, self.offset_seconds as int),
            minute < 60,
    {
        local_minute(self.unix_nanos, self.offset_seconds)
    }

    /// The local clock reading as a sequence of characters, `HH:MM`.
    pub open spec fn clock_reading(self) -> Seq<char> {
        clock_text(
            hour_of_day(self.unix_nanos as int, self.offset_seconds as int),
            minute_of_hour(self.unix_nanos as int, self.offset_seconds as int),
        )
    }

    /// The local clock reading, `HH:MM`, on a 24-hour clock.
    pub fn clock_label(self) -> (label: String)
        requires
            self.wf(),
        ensures
            label@ == self.clock_reading(),
    {
        let hour = self.hour();
        let minute = self.minute();
        let mut label = String::new();
        push_two_digits(&mut label, hour);
        label.append(":");
        push_two_digits(&mut label, minute);
        proof {
            reveal_strlit(":");
            assert(":"@ =~= seq![':']);
            assert(label@ =~= self.clock_reading());
        }
        label
    }
}

/// The text of one decimal digit.
pub fn digit_str(d: u8) -> (text: &'static str)
    requires
        d < 10,
    ensures
        text@ == seq![digit_char(d as int)],
{
    proof {
        reveal_strlit("0");
        reveal_strlit("1");
        reveal_strlit("2");
        reveal_strlit("3");
        reveal_strlit("4");
        reveal_strlit("5");
        reveal_strlit("6");
        reveal_strlit("7");
        reveal_strlit("8");
        reveal_strlit("9");
    }
    let text = if d == 0 {
        "0"
    } else if d == 1 {
        "1"
    } else if d == 2 {
        "2"
    } else if d == 3 {
        "3"
    } else if d == 4 {
        "4"
    } else if d == 5 {
        "5"
    } else if d == 6 {
        "6"
    } else if d == 7 {
        "7"
    } else if d == 8 {
        "8"
    } else {
        "9"
    };
    assert(text@ =~= seq![digit_char(d as int)]);
    text
}

/// Appends a number below one hundred as two decimal digits.
fn push_two_digits(out: &mut String, n: u8)
    requires
        n < 100,
    ensures
        final(out)@ == old(out)@ + two_digits(n as int),
{
    out.append(digit_str(n / 10));
    out.append(digit_str(n % 10));
    assert(out@ =~= old(out)@ + two_digits(n as int));
}

#[verifier::external_type_specification]
#[verifier::external_body]
pub struct ExIndeterminateOffset(time::error::IndeterminateOffset);

/// Calls `time::OffsetDateTime::now_local` and takes the reading apart into
/// its Unix timestamp and its offset.
///
/// Trusted: a reading that the `time` crate hands out lies in the years -9999
/// to 9999 both in UTC and on the local clock, with an offset of at most
/// 25:59:59, so it is a representable moment. Which moment it is depends on
/// the system clock and time zone, and nothing is claimed of that.
#[verifier::external_body]
fn read_local_clock() -> (reading: Result<Moment, time::error::IndeterminateOffset>)
    ensures
        reading matches Ok(now) ==> now.wf(),
{
    match time::OffsetDateTime::now_local() {
        Ok(now) => Ok(
            Moment {
                unix_nanos: now.unix_timestamp_nanos(),
                offset_seconds: now.offset().whole_seconds(),
            },
        ),
        Err(error) => Err(error),
    }
}

/// Calls `time::OffsetDateTime::hour` on the date-time at `unix_nanos`, moved
/// to the offset `offset_seconds`.
///
/// Trusted: the crate's clock hour in the stored offset is the hour of the
/// local second count reduced into one day.
#[verifier::external_body]
fn local_hour(unix_nanos: i128, offset_seconds: i32) -> (hour: u8)
    requires
        moment_in_range(unix_nanos as int, offset_seconds as int),
    ensures
        hour == hour_of_day(unix_nanos as int, offset_seconds as int),
        hour < 24,
{
    let offset = time::UtcOffset::from_whole_seconds(offset_seconds).unwrap();
    time::OffsetDateTime::from_unix_timestamp_nanos(unix_nanos).unwrap().to_offset(offset).hour()
}

/// Calls `time::OffsetDateTime::minute` on the date-time at `unix_nanos`,
/// moved to the offset `offset_seconds`.
///
/// Trusted: the crate's minute within the hour in the stored offset is the
/// minute of the local second count reduced into one hour.
#[verifier::external_body]
fn local_minute(unix_nanos: i128, offset_seconds: i32) -> (minute: u8)
    requires
        moment_in_range(unix_nanos as int, offset_seconds as int),
    ensures
        minute == minute_of_hour(unix_nanos as int, offset_seconds as int),
        minute < 60,
{
    let offset = time::UtcOffset::from_whole_seconds(offset_seconds).unwrap();
    time::OffsetDateTime::from_unix_timestamp_nanos(unix_nanos).unwrap().to_offset(offset).minute()
}

} // verus!
