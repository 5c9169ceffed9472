//! Points in time and spans of time, as plain counts.

use vstd::prelude::*;

verus! {

/// Nanoseconds in one second.
pub const NANOS_PER_SEC: u32 = 1_000_000_000;

/// A span of time. A `nanos` of a whole second or more carries into the total.
#[derive(Clone, Copy, Debug, PartialEq, Eq)]
pub struct Duration {
    pub secs: u64,
    pub nanos: u32,
}

impl View for Duration {
    type V = nat;

    /// The span in nanoseconds.
    open spec fn view(&self) -> nat {
        self.secs as nat * 1_000_000_000 + self.nanos as nat
    }
}

impl Duration {
    pub fn new(secs: u64, nanos: u32) -> (span: Duration)
        ensures
            span@ == secs * 1_000_000_000 + nanos,
            span == (Duration { secs, nanos }),
    {
        Duration { secs, nanos }
    }

    pub fn from_secs(secs: u64) -> (span: Duration)
        ensures
            span@ == secs * 1_000_000_000,
            span == (Duration { secs, nanos: 0 }),
    {
        Duration { secs, nanos: 0 }
    }

    pub fn from_millis(millis: u64) -> (span: Duration)
        ensures
            span@ == millis * 1_000_000,
            span.nanos < NANOS_PER_SEC,
    {
        Duration { secs: millis / 1000, nanos: ((millis % 1000) * 1_000_000) as u32 }
    }

    pub fn from_nanos(nanos: u64) -> (span: Duration)
        ensures
            span@ == nanos,
            span.nanos < NANOS_PER_SEC,
    {
        Duration { secs: nanos / 1_000_000_000, nanos: (nanos % 1_000_000_000) as u32 }
    }

    /// The span in nanoseconds.
    pub fn as_nanos(&self) -> (total: u128)
        ensures
            total == self@,
    {
        self.secs as u128 * 1_000_000_000 + self.nanos as u128
    }
}

/// A point in time, counted from the Unix epoch: `secs` whole seconds, which
/// may lie before it, plus `nanos`.
#[derive(Clone, Copy, Debug, PartialEq, Eq)]
pub struct SystemTime {
    pub secs: i64,
    pub nanos: u32,
}

impl View for SystemTime {
    type V = int;

    /// Nanoseconds since the Unix epoch.
    open spec fn view(&self) -> int {
        self.secs as int * 1_000_000_000 + self.nanos as int
    }
}

/// Whether a point in time `nanos` nanoseconds after the Unix epoch can be
/// written with a signed 64-bit count of seconds.
pub open spec fn representable(nanos: int) -> bool {
    i64::MIN * 1_000_000_000 <= nanos < (i64::MAX + 1) * 1_000_000_000
}

impl SystemTime {
    /// The start of the Unix era.
    pub fn unix_epoch() -> (epoch: SystemTime)
        ensures
            epoch@ == 0,
            epoch == (SystemTime { secs: 0, nanos: 0 }),
    {
        SystemTime { secs: 0, nanos: 0 }
    }

    /// Nanoseconds since the Unix epoch, negative before it.
    pub fn since_epoch(&self) -> (nanos: i128)
        ensures
            nanos == self@,
    {
        self.secs as i128 * 1_000_000_000 + self.nanos as i128
    }

    /// How many nanoseconds before this point `earlier` was, or else how many
    /// after it.
    pub fn duration_since(&self, earlier: SystemTime) -> (age: Result<u128, u128>)
        ensures
            age is Ok <==> earlier@ <= self@,
            match age {
                Ok(age) => age == self@ - earlier@,
                Err(ahead) => ahead == earlier@ - self@,
            },
    {
        let (now, then) = (self.since_epoch(), earlier.since_epoch());
        if then <= now {
            Ok((now - then) as u128)
        } else {
            Err((then - now) as u128)
        }
    }

    /// The point `span` later, if it is representable.
    pub fn checked_add(&self, span: Duration) -> (later: Option<SystemTime>)
        ensures
            later is Some <==> representable(self@ + span@),
            later matches Some(later) ==> later@ == self@ + span@ && later.nanos < NANOS_PER_SEC,
    {
        Self::from_nanos(self.since_epoch() + span.as_nanos() as i128)
    }

    /// The point `span` earlier, if it is representable.
    pub fn checked_sub(&self, span: Duration) -> (sooner: Option<SystemTime>)
        ensures
            sooner is Some <==> representable(self@ - span@),
            sooner matches Some(sooner) ==> sooner@ == self@ - span@ && sooner.nanos
                < NANOS_PER_SEC,
    {
        Self::from_nanos(self.since_epoch() - span.as_nanos() as i128)
    }

    /// The point `nanos` nanoseconds after the Unix epoch, if it is
    /// representable.
    pub fn from_nanos(nanos: i128) -> (time: Option<SystemTime>)
        ensures
            time is Some <==> representable(nanos as int),
            time matches Some(time) ==> time@ == nanos && time.nanos < NANOS_PER_SEC,
    {
        if nanos < i64::MIN as i128 * 1_000_000_000 || nanos >= (i64::MAX as i128 + 1)
            * 1_000_000_000 {
            return None;
        }
        // Counted from the earliest representable point, nothing is negative.
        let offset: u128 = (nanos - i64::MIN as i128 * 1_000_000_000) as u128;
        let secs: u128 = offset / 1_000_000_000;
        Some(
            SystemTime {
                secs: (secs as i128 + i64::MIN as i128) as i64,
                nanos: (offset % 1_000_000_000) as u32,
            },
        )
    }
}

/// Two points with the same view and less than a second of `nanos` are written
/// the same way.
pub proof fn normal_form_is_unique(a: SystemTime, b: SystemTime)
    requires
        a@ == b@,
        a.nanos < NANOS_PER_SEC,
        b.nanos < NANOS_PER_SEC,
    ensures
        a == b,
{
}

/// A span that is added to a point in time is the time that has then passed,
/// and taking it away again leads back.
pub proof fn time_passes_by_what_is_added(
    start: &SystemTime,
    span: Duration,
    later: Option<SystemTime>,
    passed: Result<u128, u128>,
    ahead: Result<u128, u128>,
    back: Option<SystemTime>,
    total: u128,
)
    requires
        call_ensures(SystemTime::checked_add, (start, span), later),
        later is Some,
        representable(start@),
        call_ensures(SystemTime::duration_since, (&later->0, *start), passed),
        call_ensures(SystemTime::duration_since, (start, later->0), ahead),
        call_ensures(SystemTime::checked_sub, (&later->0, span), back),
        call_ensures(Duration::as_nanos, (&span,), total),
    ensures
        total == span.secs * 1_000_000_000 + span.nanos,
        passed == Ok::<u128, u128>(total),
        total > 0 ==> ahead == Err::<u128, u128>(total),
        back is Some && back->0@ == start@,
{
}

/// Points in time are counted from the epoch in nanoseconds, and read back from
/// that count.
pub proof fn a_point_in_time_is_its_count(
    time: &SystemTime,
    count: i128,
    again: Option<SystemTime>,
    epoch: SystemTime,
)
    requires
        call_ensures(SystemTime::since_epoch, (time,), count),
        call_ensures(SystemTime::from_nanos, (count,), again),
        call_ensures(SystemTime::unix_epoch, (), epoch),
    ensures
        count == time.secs * 1_000_000_000 + time.nanos,
        time.nanos < NANOS_PER_SEC ==> again == Some(*time),
        epoch.secs == 0 && epoch.nanos == 0,
{
    if time.nanos < NANOS_PER_SEC {
        normal_form_is_unique(*time, again->0);
    }
}

/// A span is as long as it was asked to be, in whatever unit.
pub proof fn a_span_is_as_long_as_it_was_asked_to_be(
    n: u64,
    nanos: u32,
    made: Duration,
    seconds: Duration,
    millis: Duration,
    small: Duration,
)
    requires
        call_ensures(Duration::new, (n, nanos), made),
        call_ensures(Duration::from_secs, (n,), seconds),
        call_ensures(Duration::from_millis, (n,), millis),
        call_ensures(Duration::from_nanos, (n,), small),
    ensures
        made.secs == n && made.nanos == nanos,
        seconds.secs == n && seconds.nanos == 0,
        millis.secs * 1_000_000_000 + millis.nanos == n * 1_000_000,
        small.secs * 1_000_000_000 + small.nanos == n,
{
}

/// A count of nanoseconds is a point in time exactly if its whole seconds fit in
/// a signed 64-bit number.
pub proof fn every_64_bit_second_is_a_point_in_time(
    nanos: i128,
    time: Option<SystemTime>,
)
    requires
        call_ensures(SystemTime::from_nanos, (nanos,), time),
    ensures
        time is Some <==> -0x8000_0000_0000_0000 * 1_000_000_000 <= nanos < 0x8000_0000_0000_0000
            * 1_000_000_000,
        time is Some ==> time->0.secs * 1_000_000_000 + time->0.nanos == nanos,
        time is Some ==> time->0.nanos < 1_000_000_000,
{
}

} // verus!
