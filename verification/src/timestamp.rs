//! Instants of UTC time, as the health snapshot records them.

use vstd::prelude::*;

verus! {

pub const NANOS_PER_SECOND: u32 = 1_000_000_000;

/// First second that can be recorded: 1 January of the year -262143.
pub const MIN_SECONDS: i64 = -8_334_601_228_800;

/// Last second that can be recorded: 31 December of the year 262142.
pub const MAX_SECONDS: i64 = 8_210_266_876_799;

/// `secs` seconds and `nanos` nanoseconds after the Unix epoch are an instant.
/// A nanosecond part of a second or more stands for a leap second, which can
/// only follow the last second of a minute.
pub open spec fn valid_instant(secs: int, nanos: int) -> bool {
    &&& MIN_SECONDS <= secs <= MAX_SECONDS
    &&& 0 <= nanos < 2 * NANOS_PER_SECOND
    &&& nanos >= NANOS_PER_SECOND ==> secs % 60 == 59
}

/// Nanoseconds from the instant `then` to the instant `now`, negative when
/// `then` is the later one. A leap second that the earlier time of day stands
/// in is counted when the times of day differ.
pub open spec fn nanos_between(
    now_secs: int,
    now_nanos: int,
    then_secs: int,
    then_nanos: int,
) -> int {
    let now_of_day = now_secs % 86_400;
    let then_of_day = then_secs % 86_400;
    let leap: int = if now_of_day > then_of_day && then_nanos >= NANOS_PER_SECOND {
        1
    } else if now_of_day < then_of_day && now_nanos >= NANOS_PER_SECOND {
        -1
    } else {
        0
    };
    (now_secs - then_secs + leap) * NANOS_PER_SECOND + (now_nanos - then_nanos)
}

/// `chrono::Utc::now`: the wall clock, as seconds and nanoseconds since the
/// Unix epoch. It is an instant at or after the epoch outside any leap second;
/// nothing more is known of it. The clock must not stand before 1970, where
/// `now` panics.
#[verifier::external_body]
fn clock_reading() -> (now: (i64, u32))
    ensures
        valid_instant(now.0 as int, now.1 as int),
        now.0 >= 0,
        now.1 < NANOS_PER_SECOND,
{
    let now = chrono::Utc::now();
    (now.timestamp(), now.timestamp_subsec_nanos())
}

/// `chrono::SubsecRound::trunc_subsecs` with no digits left: the instant with
/// the fraction of its second dropped; inside a leap second, its start.
#[verifier::external_body]
fn drop_fraction(secs: i64, nanos: u32) -> (whole: (i64, u32))
    requires
        valid_instant(secs as int, nanos as int),
    ensures
        whole.0 == secs,
        whole.1 == nanos - nanos % NANOS_PER_SECOND,
{
    let instant = chrono::DateTime::<chrono::Utc>::from_timestamp(secs, nanos).unwrap();
    let whole = chrono::SubsecRound::trunc_subsecs(instant, 0);
    (whole.timestamp(), whole.timestamp_subsec_nanos())
}

/// `chrono::DateTime::signed_duration_since`: the time from `then` to `now` as
/// whole seconds and a rest of less than a second, both of the same sign.
#[verifier::external_body]
fn time_between(now_secs: i64, now_nanos: u32, then_secs: i64, then_nanos: u32) -> (span: (i64, i32))
    requires
        valid_instant(now_secs as int, now_nanos as int),
        valid_instant(then_secs as int, then_nanos as int),
    ensures
        span.0 * NANOS_PER_SECOND + span.1 == nanos_between(
            now_secs as int,
            now_nanos as int,
            then_secs as int,
            then_nanos as int,
        ),
        -NANOS_PER_SECOND < span.1 < NANOS_PER_SECOND,
        span.0 > 0 ==> span.1 >= 0,
        span.0 < 0 ==> span.1 <= 0,
{
    let now = chrono::DateTime::<chrono::Utc>::from_timestamp(now_secs, now_nanos).unwrap();
    let then = chrono::DateTime::<chrono::Utc>::from_timestamp(then_secs, then_nanos).unwrap();
    let span = now.signed_duration_since(then);
    (span.num_seconds(), span.subsec_nanos())
}

/// An instant of UTC time with nanosecond resolution.
#[derive(Debug, Clone, Copy, PartialEq, Eq)]
pub struct Timestamp {
    secs: i64,
    nanos: u32,
}

impl Timestamp {
    #[verifier::type_invariant]
    spec fn is_instant(self) -> bool {
        valid_instant(self.secs as int, self.nanos as int)
    }

    /// Whole seconds since the Unix epoch.
    pub closed spec fn seconds(self) -> int {
        self.secs as int
    }

    /// Nanoseconds past [`Self::seconds`].
    pub closed spec fn fraction(self) -> int {
        self.nanos as int
    }

    /// Nanoseconds from `then` to this instant.
    pub open spec fn nanos_since(self, then: Timestamp) -> int {
        nanos_between(self.seconds(), self.fraction(), then.seconds(), then.fraction())
    }

    /// This instant without the fraction of its second.
    pub open spec fn is_truncation_of(self, precise: Timestamp) -> bool {
        &&& self.seconds() == precise.seconds()
        &&& self.fraction() == precise.fraction() - precise.fraction() % NANOS_PER_SECOND as int
    }

    /// An instant that the clock can give: one at or after the Unix epoch that
    /// can be recorded, outside any leap second.
    pub open spec fn is_clock_reading(self) -> bool {
        &&& valid_instant(self.seconds(), self.fraction())
        &&& self.seconds() >= 0
        &&& self.fraction() < NANOS_PER_SECOND
    }

    /// This instant stands in a leap second.
    pub open spec fn in_leap_second(self) -> bool {
        self.fraction() >= NANOS_PER_SECOND
    }

    /// This instant comes before the other one or is the same.
    pub open spec fn not_after(self, other: Timestamp) -> bool {
        self.seconds() < other.seconds() || (self.seconds() == other.seconds() && self.fraction()
            <= other.fraction())
    }

    /// The instant `secs` seconds and `nanos` nanoseconds after the Unix epoch.
    pub fn new(secs: i64, nanos: u32) -> (instant: Option<Timestamp>)
        ensures
            match instant {
                Some(t) => {
                    &&& valid_instant(secs as int, nanos as int)
                    &&& t.seconds() == secs
                    &&& t.fraction() == nanos
                },
                None => !valid_instant(secs as int, nanos as int),
            },
    {
        if secs < MIN_SECONDS || secs > MAX_SECONDS || nanos >= 2 * NANOS_PER_SECOND {
            return None;
        }
        if nanos >= NANOS_PER_SECOND && (secs - MIN_SECONDS) % 60 != 59 {
            return None;
        }
        Some(Timestamp { secs, nanos })
    }

    /// The current time.
    pub fn now() -> (instant: Timestamp)
        ensures
            instant.is_clock_reading(),
    {
        let (secs, nanos) = clock_reading();
        Timestamp { secs, nanos }
    }

    /// The instant with the fraction of its second dropped.
    pub fn trunc_subsecs(self) -> (whole: Timestamp)
        ensures
            whole.is_truncation_of(self),
    {
        proof {
            use_type_invariant(&self);
        }
        let (secs, nanos) = drop_fraction(self.secs, self.nanos);
        Timestamp { secs, nanos }
    }

    /// Whole seconds since the Unix epoch.
    pub fn timestamp(self) -> (secs: i64)
        ensures
            secs == self.seconds(),
    {
        self.secs
    }

    /// Nanoseconds past the whole second.
    pub fn timestamp_subsec_nanos(self) -> (nanos: u32)
        ensures
            nanos == self.fraction(),
    {
        self.nanos
    }

    /// `true` when more than `hours` hours lie between `then` and this instant.
    pub fn is_later_by_more_than(self, then: Timestamp, hours: u32) -> (later: bool)
        ensures
            later == (self.nanos_since(then) > hours * 3_600 * NANOS_PER_SECOND),
    {
        proof {
            use_type_invariant(&self);
            use_type_invariant(&then);
        }
        let (secs, rest) = time_between(self.secs, self.nanos, then.secs, then.nanos);
        let limit: i64 = hours as i64 * 3_600;
        secs > limit || (secs == limit && rest > 0)
    }
}

/// Outside leap seconds, no less time has passed at a later instant.
pub proof fn law_time_passes(then: Timestamp, now: Timestamp, later: Timestamp)
    requires
        now.not_after(later),
        !then.in_leap_second(),
        !now.in_leap_second(),
        !later.in_leap_second(),
    ensures
        now.nanos_since(then) <= later.nanos_since(then),
{
}

/// Outside leap seconds, the time between two instants is the difference of
/// their seconds and of their fractions.
pub proof fn law_elapsed_time(then: Timestamp, now: Timestamp)
    requires
        then.fraction() < 1_000_000_000,
        now.fraction() < 1_000_000_000,
    ensures
        now.nanos_since(then) == (now.seconds() - then.seconds()) * 1_000_000_000 + now.fraction()
            - then.fraction(),
        now.nanos_since(then) == -then.nanos_since(now),
{
}

/// The instants that can be recorded: whole seconds of 524,285 years around the
/// epoch with a fraction of less than a second, and leap seconds at the end of a
/// minute.
pub proof fn law_valid_instants(secs: int, nanos: int)
    ensures
        valid_instant(secs, nanos) <==> -8_334_601_228_800 <= secs <= 8_210_266_876_799 && ((0
            <= nanos < 1_000_000_000) || (1_000_000_000 <= nanos < 2_000_000_000 && secs % 60
            == 59)),
{
}

/// A truncated instant stands on the whole second, not more than a second earlier.
pub proof fn law_truncation_drops_less_than_a_second(whole: Timestamp, precise: Timestamp)
    requires
        whole.is_truncation_of(precise),
        0 <= precise.fraction() < 1_000_000_000,
    ensures
        whole.seconds() == precise.seconds(),
        whole.fraction() == 0,
        0 <= precise.nanos_since(whole) < 1_000_000_000,
{
}

/// What the clock gives is an instant of 1970 or later.
pub proof fn law_clock_readings(now: Timestamp)
    requires
        now.is_clock_reading(),
    ensures
        0 <= now.seconds() <= 8_210_266_876_799,
        0 <= now.fraction() < 1_000_000_000,
{
}

/// Of two instants one is not after the other, and only equal ones both ways.
pub proof fn law_instants_are_ordered(a: Timestamp, b: Timestamp)
    requires
        a.fraction() < 1_000_000_000,
        b.fraction() < 1_000_000_000,
    ensures
        a.not_after(b) <==> b.nanos_since(a) >= 0,
        a.not_after(b) || b.not_after(a),
{
}

} // verus!
