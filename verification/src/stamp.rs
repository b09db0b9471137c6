//! Calendar time, by way of `chrono`.

use vstd::prelude::*;
use crate::text::{digit, joined};

verus! {

/// The first second `chrono` can name: the start of the year -262143.
pub const MIN_SECS: i64 = -8_334_601_228_800;

/// The last second `chrono` can name: the end of the year 262142.
pub const MAX_SECS: i64 = 8_210_266_876_799;

/// Nanoseconds in a second.
pub const NANOS: u32 = 1_000_000_000;

/// How a date is written.
pub open spec fn date_pattern() -> Seq<char> {
    "%Y-%m-%d"@
}

/// How a time of day is written.
pub open spec fn time_pattern() -> Seq<char> {
    "%H:%M:%S"@
}

/// How a date and a time of day are written together.
pub open spec fn typed_pattern() -> Seq<char> {
    "%Y-%m-%d %H:%M:%S"@
}

/// Whether these are the seconds and nanoseconds of a moment. Nanoseconds past
/// the second are a leap second, which only the last second of a minute has.
pub open spec fn is_moment(secs: int, nanos: int) -> bool {
    &&& MIN_SECS <= secs <= MAX_SECS
    &&& 0 <= nanos
    &&& nanos < NANOS || (nanos < 2 * NANOS && secs % 60 == 59)
}

/// A moment in UTC: whole seconds since the start of 1970, and nanoseconds into
/// that second.
#[derive(Clone, Copy, Debug, PartialEq, Eq, Structural)]
pub struct Stamp {
    secs: i64,
    nanos: u32,
}

impl Stamp {
    #[verifier::type_invariant]
    spec fn inv(self) -> bool {
        is_moment(self.secs as int, self.nanos as int)
    }

    /// Whole seconds since the start of 1970.
    pub closed spec fn seconds(self) -> i64 {
        self.secs
    }

    /// Nanoseconds into the second.
    pub closed spec fn nanoseconds(self) -> u32 {
        self.nanos
    }

    /// The moment with these seconds and nanoseconds, if they name one.
    pub fn new(secs: i64, nanos: u32) -> (r: Option<Self>)
        ensures
            r is Some <==> is_moment(secs as int, nanos as int),
            r matches Some(stamp) ==> stamp.seconds() == secs && stamp.nanoseconds() == nanos,
    {
        if secs < MIN_SECS || secs > MAX_SECS {
            return None;
        }
        if nanos >= NANOS {
            let minute: i64 = crate::measure::shift_wrapped(secs, 0, 60);
            if nanos >= 2 * NANOS || minute != 59 {
                return None;
            }
        }
        Some(Stamp { secs, nanos })
    }

    /// Whole seconds since the start of 1970.
    pub fn secs(self) -> (r: i64)
        ensures
            r == self.seconds(),
            is_moment(self.seconds() as int, self.nanoseconds() as int),
    {
        proof {
            use_type_invariant(&self);
        }
        self.secs
    }

    /// Nanoseconds into the second.
    pub fn nanos(self) -> (r: u32)
        ensures
            r == self.nanoseconds(),
            is_moment(self.seconds() as int, self.nanoseconds() as int),
    {
        proof {
            use_type_invariant(&self);
        }
        self.nanos
    }

    /// Whether `start` is when the minute of this moment began.
    pub open spec fn minute_began(self, start: Stamp) -> bool {
        start.seconds() == self.seconds() - self.seconds() % 60 && start.nanoseconds() == 0
    }

    /// The start of the minute of this moment.
    pub fn to_minute(self) -> (r: Stamp)
        ensures
            self.minute_began(r),
            r.seconds() == self.seconds() - self.seconds() % 60,
            r.nanoseconds() == 0,
    {
        proof {
            use_type_invariant(&self);
        }
        let into: i64 = crate::measure::shift_wrapped(self.secs, 0, 60);
        proof {
            assert(MIN_SECS as int % 60 == 0);
            assert(self.secs - into >= MIN_SECS) by (nonlinear_arith)
                requires
                    self.secs >= MIN_SECS,
                    MIN_SECS as int % 60 == 0,
                    into == self.secs as int % 60,
            {}
        }
        Stamp { secs: self.secs - into, nanos: 0 }
    }

    /// Two stamps with the same seconds and nanoseconds are the same moment.
    pub proof fn law_parts_determine_stamp(p: Stamp, q: Stamp)
        requires
            p.seconds() == q.seconds(),
            p.nanoseconds() == q.nanoseconds(),
        ensures
            p == q,
    {
    }
}

/// A number below a hundred, in two digits.
pub open spec fn two_digits(n: int) -> Seq<char> {
    seq![digit(n / 10), digit(n % 10)]
}

/// How the time of day of a moment reads: hours, minutes and seconds, a leap
/// second as the sixtieth.
pub open spec fn clock_text(secs: int, nanos: int) -> Seq<char> {
    let tod = secs % 86_400;
    let second = tod % 60 + if nanos >= NANOS { 1int } else { 0int };
    two_digits(tod / 3600) + ":"@ + two_digits(tod / 60 % 60) + ":"@ + two_digits(second)
}

/// What `chrono` writes for the moment under a pattern.
pub uninterp spec fn moment_text(secs: i64, nanos: u32, pattern: Seq<char>) -> Seq<char>;

/// The moment `chrono` reads out of a text under a pattern, as seconds and
/// nanoseconds, if it reads one.
pub uninterp spec fn read_moment(text: Seq<char>, pattern: Seq<char>) -> Option<(i64, u32)>;

/// `chrono::NaiveDateTime::format` and its text: the moment, written under the
/// pattern. The same moment and pattern give the same text, and the pattern of a
/// time of day gives hours, minutes and seconds in two digits each.
/// `from_timestamp` gives a value for every moment, and neither of the two
/// patterns is one that fails to be written.
#[verifier::external_body]
fn format_moment(secs: i64, nanos: u32, pattern: &str) -> (r: String)
    requires
        is_moment(secs as int, nanos as int),
        pattern@ == date_pattern() || pattern@ == time_pattern(),
    ensures
        r@ == moment_text(secs, nanos, pattern@),
        pattern@ == time_pattern() ==> r@ == clock_text(secs as int, nanos as int),
{
    let moment = chrono::DateTime::from_timestamp(secs, nanos).unwrap().naive_utc();
    moment.format(pattern).to_string()
}

/// `chrono::NaiveDateTime::parse_from_str`: the moment written in the text, or
/// `None` where the text is not one under the pattern. The same text and pattern
/// give the same answer, and what is read is a moment: a leap second is read
/// only where the seconds are written as sixty.
#[verifier::external_body]
fn parse_moment(text: &str, pattern: &str) -> (r: Option<(i64, u32)>)
    requires
        pattern@ == typed_pattern(),
    ensures
        r == read_moment(text@, pattern@),
        r matches Some(parts) ==> is_moment(parts.0 as int, parts.1 as int),
{
    match chrono::NaiveDateTime::parse_from_str(text, pattern) {
        Ok(moment) => Some((moment.and_utc().timestamp(), moment.and_utc().timestamp_subsec_nanos())),
        Err(_) => None,
    }
}

/// How the date of a moment reads.
pub open spec fn date_text(stamp: Stamp) -> Seq<char> {
    moment_text(stamp.seconds(), stamp.nanoseconds(), date_pattern())
}

/// How the time of day of a moment reads.
pub open spec fn time_text(stamp: Stamp) -> Seq<char> {
    clock_text(stamp.seconds() as int, stamp.nanoseconds() as int)
}

/// The text of a date and a time of day, as they are read together.
pub open spec fn typed_moment(date: Seq<char>, time: Seq<char>) -> Option<(i64, u32)> {
    read_moment(date + " "@ + time, typed_pattern())
}

/// How the date of a moment reads.
pub fn write_date(stamp: Stamp) -> (r: String)
    ensures
        r@ == date_text(stamp),
{
    format_moment(stamp.secs(), stamp.nanos(), "%Y-%m-%d")
}

/// How the time of day of a moment reads.
pub fn write_time(stamp: Stamp) -> (r: String)
    ensures
        r@ == time_text(stamp),
{
    format_moment(stamp.secs(), stamp.nanos(), "%H:%M:%S")
}

/// The moment that a typed date and time of day name, if they name one.
pub fn read_typed(date: &str, time: &str) -> (r: Option<Stamp>)
    ensures
        r is Some <==> typed_moment(date@, time@) is Some,
        r matches Some(stamp) ==> typed_moment(date@, time@) == Some(
            (stamp.seconds(), stamp.nanoseconds()),
        ),
{
    let both: String = joined(joined(date, " ").as_str(), time);
    match parse_moment(both.as_str(), "%Y-%m-%d %H:%M:%S") {
        Some((secs, nanos)) => Stamp::new(secs, nanos),
        None => None,
    }
}

/// A length of time: whole seconds and nanoseconds, both of one sign.
#[derive(Clone, Copy, Debug, PartialEq, Eq, Structural)]
pub struct Age {
    pub secs: i64,
    pub nanos: i32,
}

impl Age {
    /// The length in nanoseconds.
    pub open spec fn total(self) -> int {
        self.secs * NANOS + self.nanos
    }

    /// Whether seconds and nanoseconds are of one sign.
    pub open spec fn regular(self) -> bool {
        &&& -NANOS < self.nanos < NANOS
        &&& self.secs > 0 ==> self.nanos >= 0
        &&& self.secs < 0 ==> self.nanos <= 0
    }
}

/// The nanoseconds from one moment to a later one. Within the day a leap second
/// that lies wholly between the two counts as a second.
pub open spec fn nanos_between(
    from_secs: int,
    from_nanos: int,
    to_secs: int,
    to_nanos: int,
) -> int {
    let from_tod = from_secs % 86_400;
    let to_tod = to_secs % 86_400;
    let leap = if to_tod > from_tod && from_nanos >= NANOS {
        1int
    } else if to_tod < from_tod && to_nanos >= NANOS {
        -1int
    } else {
        0int
    };
    (to_secs - from_secs + leap) * NANOS + to_nanos - from_nanos
}

/// `chrono::NaiveDateTime::signed_duration_since`, split by `num_seconds` and
/// `subsec_nanos`: the time from one moment to another, negative where the other
/// is earlier.
#[verifier::external_body]
fn time_between(from_secs: i64, from_nanos: u32, to_secs: i64, to_nanos: u32) -> (r: (i64, i32))
    requires
        is_moment(from_secs as int, from_nanos as int),
        is_moment(to_secs as int, to_nanos as int),
    ensures
        (Age { secs: r.0, nanos: r.1 }).regular(),
        (Age { secs: r.0, nanos: r.1 }).total() == nanos_between(
            from_secs as int,
            from_nanos as int,
            to_secs as int,
            to_nanos as int,
        ),
{
    let from = chrono::DateTime::from_timestamp(from_secs, from_nanos).unwrap().naive_utc();
    let to = chrono::DateTime::from_timestamp(to_secs, to_nanos).unwrap().naive_utc();
    let delta = to.signed_duration_since(from);
    (delta.num_seconds(), delta.subsec_nanos())
}

/// How long ago `collected` was at `now`; negative for a moment still to come.
pub fn age_at(now: Stamp, collected: Stamp) -> (r: Age)
    ensures
        r.regular(),
        r.total() == nanos_between(
            collected.seconds() as int,
            collected.nanoseconds() as int,
            now.seconds() as int,
            now.nanoseconds() as int,
        ),
{
    let (secs, nanos): (i64, i32) = time_between(
        collected.secs(),
        collected.nanos(),
        now.secs(),
        now.nanos(),
    );
    Age { secs, nanos }
}

/// A moment is a second that the calendar can name with a part of that second; only the
/// last second of a minute can be a leap second.
pub proof fn law_moments_are_seconds_and_parts(secs: int, nanos: int)
    ensures
        is_moment(secs, nanos) ==> -8_334_601_228_800 <= secs <= 8_210_266_876_799 && 0 <= nanos
            < 2_000_000_000,
        -8_334_601_228_800 <= secs <= 8_210_266_876_799 && 0 <= nanos < 1_000_000_000
            ==> is_moment(secs, nanos),
        is_moment(secs, nanos) && nanos >= 1_000_000_000 ==> secs % 60 == 59,
{
}

/// A clock reads hours, minutes and seconds in two digits each, which together are the
/// seconds since the day began.
pub proof fn law_clock_reads_the_time_of_day(secs: int, nanos: int)
    requires
        is_moment(secs, nanos),
        nanos < 1_000_000_000,
    ensures
        exists|hour: int, minute: int, second: int|
            {
                &&& 0 <= hour < 24
                &&& 0 <= minute < 60
                &&& 0 <= second < 60
                &&& hour * 3600 + minute * 60 + second == secs % 86_400
                &&& clock_text(secs, nanos) == #[trigger] (two_digits(hour) + ":"@ + two_digits(
                    minute,
                ) + ":"@ + two_digits(second))
            },
{
    let tod = secs % 86_400;
    let hour = tod / 3600;
    let minute = tod / 60 % 60;
    let second = tod % 60;
    assert(0 <= tod < 86_400);
    assert(0 <= hour < 24);
    assert(hour * 3600 + minute * 60 + second == tod) by {
        assert(tod / 3600 == tod / 60 / 60);
    }
    assert(clock_text(secs, nanos) == two_digits(hour) + ":"@ + two_digits(minute) + ":"@
        + two_digits(second));
}

/// Two digits are the tens and the ones of a number below a hundred, so that two such
/// numbers that read alike are the same.
pub proof fn law_two_digits_are_the_number(m: int, n: int)
    requires
        0 <= m < 100,
        0 <= n < 100,
    ensures
        two_digits(n).len() == 2,
        two_digits(n)[0] as u32 == 48 + n / 10,
        two_digits(n)[1] as u32 == 48 + n % 10,
        two_digits(m) == two_digits(n) ==> m == n,
{
    crate::text::law_digits_are_in_order(n / 10);
    crate::text::law_digits_are_in_order(n % 10);
    crate::text::law_digits_are_in_order(m / 10);
    crate::text::law_digits_are_in_order(m % 10);
    if two_digits(m) == two_digits(n) {
        assert(two_digits(m)[0] == two_digits(n)[0]);
        assert(two_digits(m)[1] == two_digits(n)[1]);
    }
}

/// The time from one moment to another is their difference, negative backwards, where
/// neither is a leap second; from a moment to itself none passes.
pub proof fn law_time_between_is_the_difference(
    from_secs: int,
    from_nanos: int,
    to_secs: int,
    to_nanos: int,
)
    requires
        0 <= from_nanos < 1_000_000_000,
        0 <= to_nanos < 1_000_000_000,
    ensures
        nanos_between(from_secs, from_nanos, to_secs, to_nanos) == (to_secs * 1_000_000_000
            + to_nanos) - (from_secs * 1_000_000_000 + from_nanos),
        nanos_between(from_secs, from_nanos, to_secs, to_nanos) == -nanos_between(
            to_secs,
            to_nanos,
            from_secs,
            from_nanos,
        ),
        nanos_between(from_secs, from_nanos, from_secs, from_nanos) == 0,
{
}

/// A length of time whose parts are of one sign is negative exactly where either part
/// is, and its whole seconds are the total rounded towards none.
pub proof fn law_age_is_seconds_and_parts(age: Age)
    requires
        age.regular(),
    ensures
        age.total() < 0 <==> age.secs < 0 || age.nanos < 0,
        age.total() >= 0 ==> age.secs * 1_000_000_000 <= age.total() < (age.secs + 1)
            * 1_000_000_000,
        age.total() < 0 ==> (age.secs - 1) * 1_000_000_000 < age.total() <= age.secs
            * 1_000_000_000,
{
}

/// A minute begins on a whole minute, at its moments or less than sixty seconds before them.
pub proof fn law_minute_begins_on_the_minute(moment: Stamp, start: Stamp)
    requires
        moment.minute_began(start),
    ensures
        start.seconds() as int % 60 == 0,
        start.nanoseconds() == 0,
        0 <= moment.seconds() - start.seconds() < 60,
{
}

/// What is typed is read as a date and a time of day with a blank between them.
pub proof fn law_typed_texts_are_read_together(date: Seq<char>, time: Seq<char>)
    ensures
        typed_moment(date, time) == read_moment(date + " "@ + time, "%Y-%m-%d %H:%M:%S"@),
{
}

/// A leap second is the sixtieth of its minute, in the same hour and minute as the second
/// before it.
pub proof fn law_leap_second_is_the_sixtieth(secs: int, nanos: int)
    requires
        is_moment(secs, nanos),
        nanos >= 1_000_000_000,
    ensures
        exists|hour: int, minute: int|
            {
                &&& 0 <= hour < 24
                &&& 0 <= minute < 60
                &&& hour * 3600 + minute * 60 + 59 == secs % 86_400
                &&& clock_text(secs, nanos) == #[trigger] (two_digits(hour) + ":"@ + two_digits(
                    minute,
                ) + ":"@ + two_digits(60))
            },
{
    let tod = secs % 86_400;
    let hour = tod / 3600;
    let minute = tod / 60 % 60;
    assert(tod % 60 == 59);
    assert(0 <= tod < 86_400);
    assert(0 <= hour < 24);
    assert(hour * 3600 + minute * 60 + 59 == tod) by {
        assert(tod / 3600 == tod / 60 / 60);
    }
    assert(clock_text(secs, nanos) == two_digits(hour) + ":"@ + two_digits(minute) + ":"@
        + two_digits(60));
}

} // verus!
