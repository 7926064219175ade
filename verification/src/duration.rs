//! Spans of time for timeouts and budgets.

use vstd::prelude::*;

verus! {

/// Nanoseconds of a second.
pub const SECOND: u32 = 1_000_000_000;

/// The `Debug` form of a `std::time::Duration` of `secs` seconds and `nanos`
/// nanoseconds, such as `10s` or `1.5ms`.
pub uninterp spec fn duration_debug(secs: u64, nanos: u32) -> Seq<char>;

/// `std::time::Duration`'s `Debug` form, named by [`duration_debug`]. A
/// nanosecond part of a second or more could overflow the seconds, where
/// `Duration::new` panics.
#[verifier::external_body]
fn format_duration(secs: u64, nanos: u32) -> (shown: String)
    requires
        nanos < SECOND,
    ensures
        shown@ == duration_debug(secs, nanos),
{
    format!("{:?}", std::time::Duration::new(secs, nanos))
}

/// A span of time with nanosecond resolution.
#[derive(Debug, Clone, Copy, PartialEq, Eq)]
pub struct Duration {
    secs: u64,
    nanos: u32,
}

impl Duration {
    #[verifier::type_invariant]
    spec fn is_span(self) -> bool {
        self.nanos < SECOND
    }

    /// Whole seconds of the span.
    pub closed spec fn whole_seconds(self) -> u64 {
        self.secs
    }

    /// Nanoseconds past the whole seconds.
    pub closed spec fn fraction(self) -> u32 {
        self.nanos
    }

    /// The span in nanoseconds.
    pub open spec fn total_nanos(self) -> int {
        self.whole_seconds() * SECOND + self.fraction()
    }

    /// The shorter of two spans.
    pub open spec fn shorter(self, other: Duration) -> Duration {
        if other.total_nanos() < self.total_nanos() {
            other
        } else {
            self
        }
    }

    /// A span of whole seconds.
    pub fn from_secs(secs: u64) -> (span: Duration)
        ensures
            span.whole_seconds() == secs,
            span.fraction() == 0,
            span.total_nanos() == secs * SECOND,
    {
        Duration { secs, nanos: 0 }
    }

    /// A span of `secs` seconds and `nanos` nanoseconds, where the latter are
    /// less than a second.
    pub fn from_parts(secs: u64, nanos: u32) -> (span: Option<Duration>)
        ensures
            match span {
                Some(d) => nanos < SECOND && d.whole_seconds() == secs && d.fraction() == nanos,
                None => nanos >= SECOND,
            },
    {
        if nanos < SECOND {
            Some(Duration { secs, nanos })
        } else {
            None
        }
    }

    /// Whole seconds of the span.
    pub fn as_secs(self) -> (secs: u64)
        ensures
            secs == self.whole_seconds(),
    {
        self.secs
    }

    /// Nanoseconds past the whole seconds.
    pub fn subsec_nanos(self) -> (nanos: u32)
        ensures
            nanos == self.fraction(),
            nanos < SECOND,
    {
        proof {
            use_type_invariant(&self);
        }
        self.nanos
    }

    /// The span in whole milliseconds.
    pub fn as_millis(self) -> (millis: u128)
        ensures
            millis == self.total_nanos() / 1_000_000,
    {
        proof {
            use_type_invariant(&self);
        }
        self.secs as u128 * 1_000 + (self.nanos / 1_000_000) as u128
    }

    /// The shorter of two spans.
    pub fn min(self, other: Duration) -> (least: Duration)
        ensures
            least == self.shorter(other),
    {
        proof {
            use_type_invariant(&self);
            use_type_invariant(&other);
        }
        if other.secs < self.secs || (other.secs == self.secs && other.nanos < self.nanos) {
            other
        } else {
            self
        }
    }

    /// `true` for the span of no length.
    pub fn is_zero(self) -> (zero: bool)
        ensures
            zero == (self.total_nanos() == 0),
    {
        self.secs == 0 && self.nanos == 0
    }

    /// What is left of the span after `spent`; nothing when `spent` is longer.
    pub fn saturating_sub(self, spent: Duration) -> (left: Duration)
        ensures
            left.total_nanos() == if self.total_nanos() <= spent.total_nanos() {
                0
            } else {
                self.total_nanos() - spent.total_nanos()
            },
    {
        proof {
            use_type_invariant(&self);
            use_type_invariant(&spent);
        }
        if self.secs < spent.secs || (self.secs == spent.secs && self.nanos <= spent.nanos) {
            Duration { secs: 0, nanos: 0 }
        } else if self.nanos >= spent.nanos {
            Duration { secs: self.secs - spent.secs, nanos: self.nanos - spent.nanos }
        } else {
            Duration { secs: self.secs - spent.secs - 1, nanos: self.nanos + (SECOND - spent.nanos) }
        }
    }

    /// The span as it is shown in messages.
    pub fn debug_text(self) -> (shown: String)
        ensures
            shown@ == duration_debug(self.whole_seconds(), self.fraction()),
    {
        proof {
            use_type_invariant(&self);
        }
        format_duration(self.secs, self.nanos)
    }
}

/// Spans that last equally long are the same span.
pub proof fn law_duration_is_its_length(a: Duration, b: Duration)
    requires
        a.fraction() < SECOND,
        b.fraction() < SECOND,
        a.total_nanos() == b.total_nanos(),
    ensures
        a == b,
{
}

/// A span is so many seconds of a thousand million nanoseconds, and the rest.
pub proof fn law_length_of_a_span(span: Duration)
    ensures
        span.total_nanos() == span.whole_seconds() * 1_000_000_000 + span.fraction(),
        span.total_nanos() >= 0,
{
}

/// The shorter of two spans is one of them and no longer than either.
pub proof fn law_shorter(a: Duration, b: Duration)
    ensures
        a.shorter(b) == a || a.shorter(b) == b,
        a.shorter(b).total_nanos() <= a.total_nanos(),
        a.shorter(b).total_nanos() <= b.total_nanos(),
{
}

/// What is left of a span and what was spent make up the span, unless more was spent.
pub proof fn law_what_is_left(total: Duration, spent: Duration, left: Duration)
    requires
        call_ensures(Duration::saturating_sub, (total, spent), left),
    ensures
        spent.total_nanos() <= total.total_nanos() ==> left.total_nanos() + spent.total_nanos()
            == total.total_nanos(),
        spent.total_nanos() > total.total_nanos() ==> left.total_nanos() == 0,
{
}

/// The milliseconds of a span are the whole ones.
pub proof fn law_milliseconds(span: Duration, millis: u128)
    requires
        call_ensures(Duration::as_millis, (span,), millis),
    ensures
        millis * 1_000_000 <= span.total_nanos() < (millis + 1) * 1_000_000,
{
}

} // verus!
