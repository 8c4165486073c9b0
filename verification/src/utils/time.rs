//! Clocks and time stamps.
use crate::text;
use vstd::prelude::*;

verus! {

/// Constant to convert seconds to nanoseconds.
pub const NANOS_PER_SECOND: u64 = 1_000_000_000;

/// One more than the largest time stamp.
pub const STAMP_MODULUS: u128 = 0x1_0000_0000_0000_0000;

/// Wrapper over clock source types.
#[derive(Clone, Copy, PartialEq, Eq, Structural, Debug)]
pub enum ClockType {
    /// Monotonic clock.
    Monotonic,
    /// Real (wall-clock) time.
    Real,
    /// Process CPU time.
    ProcessCpu,
    /// Thread CPU time.
    ThreadCpu,
}

/// The numbers by which the host knows its clocks.
#[derive(Clone, Copy, PartialEq, Eq, Structural, Debug)]
pub struct ClockNumbers {
    pub monotonic: i32,
    pub real: i32,
    pub process_cpu: i32,
    pub thread_cpu: i32,
}

impl ClockNumbers {
    /// The host's number for a clock.
    pub fn number(&self, ctype: ClockType) -> (number: i32)
        ensures
            number == match ctype {
                ClockType::Monotonic => self.monotonic,
                ClockType::Real => self.real,
                ClockType::ProcessCpu => self.process_cpu,
                ClockType::ThreadCpu => self.thread_cpu,
            },
    {
        match ctype {
            ClockType::Monotonic => self.monotonic,
            ClockType::Real => self.real,
            ClockType::ProcessCpu => self.process_cpu,
            ClockType::ThreadCpu => self.thread_cpu,
        }
    }
}

/// What a host shows when it is asked for the time.
#[derive(Clone, Copy, PartialEq, Eq, Structural, Debug)]
pub enum ClockReading {
    /// The seconds and nanoseconds of the clock that was asked for; zero where
    /// it cannot be read.
    Timespec { sec: i64, nsec: i64 },
    /// The nanoseconds since the first reading and since the epoch, on a host
    /// without CPU clocks.
    Elapsed { since_start: u128, since_epoch: u128 },
}

/// Structure representing the date in local time with nanosecond precision.
#[derive(Clone, Copy, PartialEq, Eq, Structural, Debug)]
pub struct LocalTime {
    /// Seconds in current minute.
    pub sec: i32,
    /// Minutes in current hour.
    pub min: i32,
    /// Hours in current day, 24H format.
    pub hour: i32,
    /// Days in current month.
    pub mday: i32,
    /// Months in current year.
    pub mon: i32,
    /// Years passed since 1900.
    pub year: i32,
    /// Nanoseconds in current second.
    pub nsec: i64,
}

/// Year, month, day, hour, minute, second and nanoseconds, all but the year
/// filled up with zeros to two characters, the nanoseconds to nine.
pub open spec fn local_time_text(t: LocalTime) -> Seq<char> {
    text::decimal(t.year + 1900, 0) + "-"@ + text::decimal(t.mon + 1, 2) + "-"@ + text::decimal(
        t.mday as int,
        2,
    ) + "T"@ + text::decimal(t.hour as int, 2) + ":"@ + text::decimal(t.min as int, 2) + ":"@
        + text::decimal(t.sec as int, 2) + "."@ + text::decimal(t.nsec as int, 9)
}

impl LocalTime {
    /// The time as a text such as `2019-07-04T10:15:30.123456789`.
    pub fn to_string(&self) -> (s: String)
        requires
            self.year + 1900 <= i32::MAX,
            self.mon + 1 <= i32::MAX,
        ensures
            s@ == local_time_text(*self),
    {
        let mut out: String = String::new();
        text::push_decimal(&mut out, (self.year + 1900) as i64, 0);
        out.append("-");
        text::push_decimal(&mut out, (self.mon + 1) as i64, 2);
        out.append("-");
        text::push_decimal(&mut out, self.mday as i64, 2);
        out.append("T");
        text::push_decimal(&mut out, self.hour as i64, 2);
        out.append(":");
        text::push_decimal(&mut out, self.min as i64, 2);
        out.append(":");
        text::push_decimal(&mut out, self.sec as i64, 2);
        out.append(".");
        text::push_decimal(&mut out, self.nsec, 9);
        out
    }
}

/// Holds a micro-second resolution timestamp with both the real time and cpu time.
#[derive(Clone, Copy, PartialEq, Eq, Structural, Debug)]
pub struct TimestampUs {
    /// Real time in microseconds.
    pub time_us: u64,
    /// Cpu time in microseconds.
    pub cputime_us: u64,
}

impl TimestampUs {
    /// The stamp of what the host shows for the monotonic clock and for the
    /// CPU time of the process; none if one of them has no stamp.
    pub fn from_readings(monotonic: ClockReading, process_cpu: ClockReading) -> (r: Option<
        TimestampUs,
    >)
        ensures
            match (
                time_of(ClockType::Monotonic, monotonic),
                time_of(ClockType::ProcessCpu, process_cpu),
            ) {
                (Some(m), Some(p)) => r matches Some(stamp) && stamp.time_us == m / 1000
                    && stamp.cputime_us == p / 1000,
                _ => r is None,
            },
    {
        match (
            get_time(ClockType::Monotonic, monotonic),
            get_time(ClockType::ProcessCpu, process_cpu),
        ) {
            (Some(m), Some(p)) => Some(TimestampUs { time_us: m / 1000, cputime_us: p / 1000 }),
            _ => None,
        }
    }
}

/// The value as an unsigned 64-bit number; negative values wrap around.
pub open spec fn as_stamp(value: int) -> int {
    if value < 0 {
        value + STAMP_MODULUS
    } else {
        value
    }
}

/// The time stamp of a clock that shows the given seconds and nanoseconds.
/// There is none if the seconds do not fit a signed 64-bit number of
/// nanoseconds, or the sum does not fit a time stamp.
pub open spec fn stamp_of(sec: i64, nsec: i64) -> Option<int> {
    let from_seconds = sec * NANOS_PER_SECOND;
    let sum = as_stamp(from_seconds) + as_stamp(nsec as int);
    if i64::MIN <= from_seconds <= i64::MAX && sum < STAMP_MODULUS {
        Some(sum)
    } else {
        None
    }
}

/// The stamp is the given one.
pub open spec fn is_stamp(r: Option<u64>, stamp: Option<int>) -> bool {
    match r {
        Some(v) => stamp == Some(v as int),
        None => stamp is None,
    }
}

/// The time stamp in nanoseconds of a clock that shows the given time.
pub fn nanoseconds(sec: i64, nsec: i64) -> (r: Option<u64>)
    ensures
        is_stamp(r, stamp_of(sec, nsec)),
{
    match seconds_to_nanoseconds(sec) {
        None => None,
        Some(n) => {
            proof {
                assert(n < 0 ==> n as u64 == n + 0x1_0000_0000_0000_0000) by (bit_vector);
                assert(nsec < 0 ==> nsec as u64 == nsec + 0x1_0000_0000_0000_0000) by (bit_vector);
            }
            (n as u64).checked_add(nsec as u64)
        },
    }
}

/// The time stamp of a clock in a reading. On a host without CPU clocks those
/// show zero, and a number of nanoseconds that is too large wraps around.
pub open spec fn time_of(clock_type: ClockType, reading: ClockReading) -> Option<int> {
    match reading {
        ClockReading::Timespec { sec, nsec } => stamp_of(sec, nsec),
        ClockReading::Elapsed { since_start, since_epoch } => Some(
            match clock_type {
                ClockType::Monotonic => since_start as int % (STAMP_MODULUS as int),
                ClockType::Real => since_epoch as int % (STAMP_MODULUS as int),
                ClockType::ProcessCpu | ClockType::ThreadCpu => 0,
            },
        ),
    }
}

/// Returns a timestamp in nanoseconds based on the provided clock type, from
/// what the host shows; none if that time has no stamp.
pub fn get_time(clock_type: ClockType, reading: ClockReading) -> (r: Option<u64>)
    ensures
        is_stamp(r, time_of(clock_type, reading)),
{
    match reading {
        ClockReading::Timespec { sec, nsec } => nanoseconds(sec, nsec),
        ClockReading::Elapsed { since_start, since_epoch } => Some(
            match clock_type {
                ClockType::Monotonic => (since_start % STAMP_MODULUS) as u64,
                ClockType::Real => (since_epoch % STAMP_MODULUS) as u64,
                ClockType::ProcessCpu | ClockType::ThreadCpu => 0,
            },
        ),
    }
}

/// Converts a timestamp in seconds to an equivalent one in nanoseconds.
/// Returns `None` if the conversion overflows.
pub fn seconds_to_nanoseconds(value: i64) -> (r: Option<i64>)
    ensures
        match r {
            Some(n) => n == value * NANOS_PER_SECOND,
            None => value * NANOS_PER_SECOND < i64::MIN || value * NANOS_PER_SECOND > i64::MAX,
        },
{
    value.checked_mul(NANOS_PER_SECOND as i64)
}

/// The nanoseconds from the epoch of a clock to what a reading shows of it,
/// negative before the epoch. CPU clocks stand still on a host without them.
pub open spec fn moment(clock_type: ClockType, reading: ClockReading) -> int {
    match reading {
        ClockReading::Timespec { sec, nsec } => sec * NANOS_PER_SECOND + nsec,
        ClockReading::Elapsed { since_start, since_epoch } => match clock_type {
            ClockType::Monotonic => since_start as int,
            ClockType::Real => since_epoch as int,
            ClockType::ProcessCpu | ClockType::ThreadCpu => 0,
        },
    }
}

/// Every stamp is the moment that the clock shows, wrapped to 64 bits.
pub proof fn stamps_are_wrapped_moments(clock_type: ClockType, reading: ClockReading)
    ensures
        time_of(clock_type, reading) matches Some(stamp) ==> stamp == moment(clock_type, reading)
            % (STAMP_MODULUS as int),
{
}

/// Stamps do not go back where the host's clock does not: of two readings of
/// a clock that have stamps, the one that shows the later moment has no
/// smaller stamp, unless the stamps wrap around between them.
pub proof fn stamps_do_not_go_back(
    clock_type: ClockType,
    earlier: ClockReading,
    later: ClockReading,
)
    requires
        time_of(clock_type, earlier) is Some,
        time_of(clock_type, later) is Some,
        moment(clock_type, earlier) <= moment(clock_type, later),
        moment(clock_type, earlier) / (STAMP_MODULUS as int) == moment(clock_type, later) / (
        STAMP_MODULUS as int),
    ensures
        time_of(clock_type, earlier)->0 <= time_of(clock_type, later)->0,
{
    stamps_are_wrapped_moments(clock_type, earlier);
    stamps_are_wrapped_moments(clock_type, later);
}

/// A stamp is zero only at the epoch itself, where it does not wrap around.
pub proof fn only_the_epoch_is_zero(clock_type: ClockType, reading: ClockReading)
    requires
        time_of(clock_type, reading) is Some,
        moment(clock_type, reading) < STAMP_MODULUS,
    ensures
        time_of(clock_type, reading) == Some(0int) <==> moment(clock_type, reading) == 0,
{
    stamps_are_wrapped_moments(clock_type, reading);
}

/// A clock that shows seconds and nanoseconds, as clocks do, has a stamp of a
/// thousand million nanoseconds for each second, if that fits.
pub proof fn seconds_are_counted_in_nanoseconds(
    clock_type: ClockType,
    sec: i64,
    nsec: i64,
    r: Option<u64>,
    next: Option<u64>,
)
    requires
        call_ensures(get_time, (clock_type, ClockReading::Timespec { sec, nsec }), r),
        0 <= sec < 9_223_372_036,
        0 <= nsec < 1_000_000_000,
        call_ensures(
            get_time,
            (clock_type, ClockReading::Timespec { sec: (sec + 1) as i64, nsec }),
            next,
        ),
    ensures
        r matches Some(v) && v == sec * 1_000_000_000 + nsec,
        sec + 1 < 9_223_372_036 ==> (next matches Some(v) && v == r->0 + 1_000_000_000),
{
}

/// Seconds are converted exactly, or not at all if the nanoseconds do not fit.
pub proof fn seconds_are_converted_exactly(value: i64, r: Option<i64>)
    requires
        call_ensures(seconds_to_nanoseconds, (value,), r),
    ensures
        r is Some <==> -9_223_372_036 <= value <= 9_223_372_036,
        r matches Some(n) ==> n == value * 1_000_000_000,
{
}

/// On a host without CPU clocks the monotonic clock shows what has elapsed
/// since the start, the wall clock what has since the epoch, and the CPU
/// clocks zero.
pub proof fn elapsed_times_belong_to_their_clocks(
    clock_type: ClockType,
    since_start: u128,
    since_epoch: u128,
    r: Option<u64>,
)
    requires
        call_ensures(
            get_time,
            (clock_type, ClockReading::Elapsed { since_start, since_epoch }),
            r,
        ),
        since_start <= u64::MAX,
        since_epoch <= u64::MAX,
    ensures
        r matches Some(v) && v == match clock_type {
            ClockType::Monotonic => since_start,
            ClockType::Real => since_epoch,
            _ => 0,
        },
{
}

/// A stamp in microseconds has the microseconds that have passed in full, of
/// the monotonic clock and of the CPU time of the process.
pub proof fn microseconds_are_those_that_have_passed(
    monotonic: ClockReading,
    process_cpu: ClockReading,
    time: Option<u64>,
    cpu: Option<u64>,
    r: Option<TimestampUs>,
)
    requires
        call_ensures(TimestampUs::from_readings, (monotonic, process_cpu), r),
        call_ensures(get_time, (ClockType::Monotonic, monotonic), time),
        call_ensures(get_time, (ClockType::ProcessCpu, process_cpu), cpu),
    ensures
        r is Some <==> time is Some && cpu is Some,
        r matches Some(stamp) ==> {
            &&& stamp.time_us * 1000 <= time->0 < (stamp.time_us + 1) * 1000
            &&& stamp.cputime_us * 1000 <= cpu->0 < (stamp.cputime_us + 1) * 1000
        },
{
}

/// Every clock has the number that the host gave for it.
pub proof fn clocks_have_their_numbers(numbers: ClockNumbers, ctype: ClockType, n: i32)
    requires
        call_ensures(ClockNumbers::number, (&numbers, ctype), n),
    ensures
        ctype is Monotonic ==> n == numbers.monotonic,
        ctype is Real ==> n == numbers.real,
        ctype is ProcessCpu ==> n == numbers.process_cpu,
        ctype is ThreadCpu ==> n == numbers.thread_cpu,
{
}

/// The fields are those of a date in a year of four digits.
pub open spec fn is_date(t: LocalTime) -> bool {
    &&& 1000 <= t.year + 1900 <= 9999
    &&& 0 <= t.mon < 12
    &&& 1 <= t.mday <= 31
    &&& 0 <= t.hour < 24
    &&& 0 <= t.min < 60
    &&& 0 <= t.sec <= 60
    &&& 0 <= t.nsec < 1_000_000_000
}

/// The characters from one place to another are digits and stand for a number.
pub open spec fn shows(s: Seq<char>, from: int, to: int, n: int) -> bool {
    text::is_number(s.subrange(from, to), 10) && text::number(s.subrange(from, to), 10) == n
}

/// A date is shown in 29 characters: the year, the month counted from one, the
/// day, the hour, the minute, the second and nine digits of nanoseconds, each
/// in its place.
pub proof fn dates_are_shown_in_order(t: LocalTime, out: String)
    requires
        call_ensures(LocalTime::to_string, (&t,), out),
        is_date(t),
    ensures
        out@.len() == 29,
        shows(out@, 0, 4, t.year + 1900),
        shows(out@, 5, 7, t.mon + 1),
        shows(out@, 8, 10, t.mday as int),
        shows(out@, 11, 13, t.hour as int),
        shows(out@, 14, 16, t.min as int),
        shows(out@, 17, 19, t.sec as int),
        shows(out@, 20, 29, t.nsec as int),
        out@[4] == '-' && out@[7] == '-' && out@[10] == 'T' && out@[13] == ':' && out@[16] == ':'
            && out@[19] == '.',
{
    reveal_strlit("-");
    reveal_strlit("T");
    reveal_strlit(":");
    reveal_strlit(".");
    reveal_with_fuel(text::power_of_10, 10);
    assert(text::power_of_10(2) == 100 && text::power_of_10(4) == 10_000 && text::power_of_10(9)
        == 1_000_000_000);
    let s = out@;
    let y = text::decimal(t.year + 1900, 0);
    text::four_digit_numbers_have_four_digits((t.year + 1900) as nat);
    text::small_numbers_fill_the_width((t.mon + 1) as nat, 2);
    text::small_numbers_fill_the_width(t.mday as nat, 2);
    text::small_numbers_fill_the_width(t.hour as nat, 2);
    text::small_numbers_fill_the_width(t.min as nat, 2);
    text::small_numbers_fill_the_width(t.sec as nat, 2);
    text::small_numbers_fill_the_width(t.nsec as nat, 9);
    assert(s.subrange(0, 4) =~= y);
    assert(s.subrange(5, 7) =~= text::decimal(t.mon + 1, 2));
    assert(s.subrange(8, 10) =~= text::decimal(t.mday as int, 2));
    assert(s.subrange(11, 13) =~= text::decimal(t.hour as int, 2));
    assert(s.subrange(14, 16) =~= text::decimal(t.min as int, 2));
    assert(s.subrange(17, 19) =~= text::decimal(t.sec as int, 2));
    assert(s.subrange(20, 29) =~= text::decimal(t.nsec as int, 9));
}

/// A clock has a stamp only if its seconds fit a signed number of nanoseconds.
/// From the epoch on every such clock has one, and it is the sum; with one of
/// the two numbers negative only one that shows a moment before the epoch
/// does, and with both negative none.
pub proof fn clocks_have_a_stamp_if_it_fits(sec: i64, nsec: i64, r: Option<u64>)
    requires
        call_ensures(nanoseconds, (sec, nsec), r),
    ensures
        r is Some ==> -9_223_372_036 <= sec <= 9_223_372_036,
        -9_223_372_036 <= sec <= 9_223_372_036 ==> {
            let shown = sec * 1_000_000_000 + nsec;
            &&& sec >= 0 && nsec >= 0 ==> (r matches Some(v) && v == shown)
            &&& sec < 0 && nsec < 0 ==> r is None
            &&& (sec < 0) != (nsec < 0) ==> (r is Some <==> shown < 0)
            &&& r is Some && shown < 0 ==> r->0 == shown + 0x1_0000_0000_0000_0000
        },
{
}

} // verus!
