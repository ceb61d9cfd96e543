//! Points in time, signed spans of time, time ranges and values stamped with
//! the time they were made.
use std::time::{SystemTime, UNIX_EPOCH};
use vstd::prelude::*;

verus! {

/// Seconds since the Unix epoch of the earliest representable instant,
/// January 1st of year -262143, 00:00:00 UTC.
pub const TIMESTAMP_MIN_SECS: i64 = -8334601228800;

/// Seconds since the Unix epoch of the second holding the latest
/// representable instant, December 31st of year 262142, 23:59:59 UTC.
pub const TIMESTAMP_MAX_SECS: i64 = 8210266876799;

/// Nanoseconds in a second.
pub const NANOS_PER_SEC: u32 = 1_000_000_000;

/// Nanoseconds since the epoch of the earliest representable instant.
pub open spec fn min_instant() -> int {
    TIMESTAMP_MIN_SECS * 1_000_000_000
}

/// Nanoseconds since the epoch of the latest representable instant.
pub open spec fn max_instant() -> int {
    TIMESTAMP_MAX_SECS * 1_000_000_000 + 999_999_999
}

/// A representable instant, in nanoseconds since the epoch.
pub open spec fn instant_in_range(n: int) -> bool {
    min_instant() <= n <= max_instant()
}

/// The largest span: `i64::MAX` milliseconds, in nanoseconds.
pub open spec fn max_span() -> int {
    i64::MAX * 1_000_000
}

/// A representable span, in nanoseconds.
pub open spec fn span_in_range(n: int) -> bool {
    -max_span() <= n <= max_span()
}

/// An instant in UTC with nanosecond precision; it stands for
/// `secs * 10^9 + nanos` nanoseconds since the Unix epoch.
#[derive(Clone, Copy, Debug, PartialEq, Eq, Hash)]
pub struct Timestamp {
    secs: i64,
    nanos: u32,
}

impl Timestamp {
    #[verifier::type_invariant]
    spec fn wf(self) -> bool {
        &&& self.nanos < NANOS_PER_SEC
        &&& TIMESTAMP_MIN_SECS <= self.secs <= TIMESTAMP_MAX_SECS
    }
}

impl View for Timestamp {
    type V = int;

    closed spec fn view(&self) -> int {
        self.secs * 1_000_000_000 + self.nanos
    }
}

impl Timestamp {
    /// The instant `secs` seconds and `nanos` nanoseconds after the epoch, when
    /// representable.
    pub fn from_parts(secs: i64, nanos: u32) -> (r: Option<Timestamp>)
        ensures
            (nanos < NANOS_PER_SEC && TIMESTAMP_MIN_SECS <= secs <= TIMESTAMP_MAX_SECS) ==> (r
                matches Some(t) && t@ == secs * 1_000_000_000 + nanos),
            !(nanos < NANOS_PER_SEC && TIMESTAMP_MIN_SECS <= secs <= TIMESTAMP_MAX_SECS) ==> r
                is None,
    {
        if nanos < NANOS_PER_SEC && TIMESTAMP_MIN_SECS <= secs && secs <= TIMESTAMP_MAX_SECS {
            Some(Timestamp { secs, nanos })
        } else {
            None
        }
    }

    /// The Unix epoch, 1970-01-01 00:00:00 UTC.
    pub fn epoch() -> (t: Timestamp)
        ensures
            t@ == 0,
    {
        Timestamp { secs: 0, nanos: 0 }
    }

    /// Whole seconds since the epoch (rounded down).
    pub fn secs(&self) -> (s: i64)
        ensures
            s * 1_000_000_000 <= self@ < s * 1_000_000_000 + 1_000_000_000,
    {
        proof {
            use_type_invariant(self);
        }
        self.secs
    }

    /// Nanoseconds past the whole second.
    pub fn subsec_nanos(&self) -> (n: u32)
        ensures
            n < NANOS_PER_SEC,
            self@ == self.secs_spec() * 1_000_000_000 + n,
    {
        proof {
            use_type_invariant(self);
        }
        self.nanos
    }

    /// Whole seconds since the epoch (rounded down).
    pub closed spec fn secs_spec(self) -> int {
        self.secs as int
    }

    /// Whether this instant is strictly before `other`.
    pub fn is_before(&self, other: &Timestamp) -> (r: bool)
        ensures
            r == (self@ < other@),
    {
        proof {
            use_type_invariant(self);
            use_type_invariant(other);
        }
        self.secs < other.secs || (self.secs == other.secs && self.nanos < other.nanos)
    }

    /// The instant `d` after this one; `d` may be negative. The result must be
    /// representable.
    pub fn add_span(self, d: Span) -> (r: Timestamp)
        requires
            instant_in_range(self@ + d@),
        ensures
            r@ == self@ + d@,
    {
        proof {
            use_type_invariant(self);
            use_type_invariant(d);
        }
        let mut secs = self.secs + d.secs;
        let mut nanos = self.nanos + d.nanos;
        if nanos >= NANOS_PER_SEC {
            secs = secs + 1;
            nanos = nanos - NANOS_PER_SEC;
        }
        Timestamp { secs, nanos }
    }

    /// The signed span from `other` to this instant.
    pub fn since(self, other: Timestamp) -> (d: Span)
        ensures
            d@ == self@ - other@,
    {
        proof {
            use_type_invariant(self);
            use_type_invariant(other);
        }
        let mut secs = self.secs - other.secs;
        let nanos = if self.nanos >= other.nanos {
            self.nanos - other.nanos
        } else {
            secs = secs - 1;
            self.nanos + NANOS_PER_SEC - other.nanos
        };
        Span { secs, nanos }
    }
}

/// A signed span of time with nanosecond precision, of at most `i64::MAX`
/// milliseconds either way; it stands for `secs * 10^9 + nanos` nanoseconds.
#[derive(Clone, Copy, Debug, PartialEq, Eq, Hash)]
pub struct Span {
    secs: i64,
    nanos: u32,
}

impl Span {
    #[verifier::type_invariant]
    spec fn wf(self) -> bool {
        &&& self.nanos < NANOS_PER_SEC
        &&& span_in_range(self.secs * 1_000_000_000 + self.nanos)
    }
}

impl View for Span {
    type V = int;

    closed spec fn view(&self) -> int {
        self.secs * 1_000_000_000 + self.nanos
    }
}

/// `n` divided by `d`, rounded toward zero.
pub open spec fn div_toward_zero(n: int, d: int) -> int {
    if n >= 0 {
        n / d
    } else {
        -((-n) / d)
    }
}

impl Span {
    /// The span of `ms` milliseconds; `ms` may not be `i64::MIN`.
    pub fn milliseconds(ms: i64) -> (d: Span)
        requires
            ms > i64::MIN,
        ensures
            d@ == ms * 1_000_000,
    {
        if ms >= 0 {
            let secs = ms / 1000;
            let rem = ms % 1000;
            Span { secs, nanos: (rem as u32) * 1_000_000 }
        } else {
            let p = -(ms + 1);
            let q = p / 1000;
            let r = p % 1000;
            Span { secs: -(q + 1), nanos: ((999 - r) as u32) * 1_000_000 }
        }
    }

    /// The length of the span in whole milliseconds, rounded toward zero.
    pub fn num_milliseconds(&self) -> (ms: i64)
        ensures
            ms == div_toward_zero(self@, 1_000_000),
    {
        proof {
            use_type_invariant(self);
        }
        if self.secs < 0 && self.nanos > 0 {
            let neg_part = (NANOS_PER_SEC - self.nanos) / 1_000_000;
            assert(-(self@) == (-(self.secs + 1)) * 1_000_000_000 + (NANOS_PER_SEC - self.nanos));
            (self.secs + 1) * 1000 - neg_part as i64
        } else {
            self.secs * 1000 + (self.nanos / 1_000_000) as i64
        }
    }
}

/// A range of time, from one instant to another.
#[derive(Clone, Copy, Debug, PartialEq, Eq, Hash)]
pub struct TimeRange {
    pub from: Timestamp,
    pub to: Timestamp,
}

impl TimeRange {
    pub fn new(from: Timestamp, to: Timestamp) -> (r: Self)
        ensures
            r.from == from,
            r.to == to,
    {
        Self { from, to }
    }

    /// The range of length `duration` starting at `from`; its end must be
    /// representable.
    pub fn new_with_length(from: Timestamp, duration: Span) -> (r: Self)
        requires
            instant_in_range(from@ + duration@),
        ensures
            r.from == from,
            r.to@ == from@ + duration@,
    {
        Self::new(from, from.add_span(duration))
    }

    /// The range moved by `shift`; both ends must stay representable.
    pub fn shifted(self, shift: Span) -> (r: Self)
        requires
            instant_in_range(self.from@ + shift@),
            instant_in_range(self.to@ + shift@),
        ensures
            r.from@ == self.from@ + shift@,
            r.to@ == self.to@ + shift@,
    {
        Self::new(self.from.add_span(shift), self.to.add_span(shift))
    }

    /// Whether the range is non-empty: it starts before it ends.
    pub fn valid(&self) -> (r: bool)
        ensures
            r == (self.from@ < self.to@),
    {
        self.from.is_before(&self.to)
    }

    /// The signed length of the range.
    pub fn len(&self) -> (d: Span)
        ensures
            d@ == self.to@ - self.from@,
    {
        self.to.since(self.from)
    }

    /// Whether the two ranges overlap in more than a single instant.
    pub fn intersects(&self, other: &TimeRange) -> (r: bool)
        ensures
            r == (self.to@ > other.from@ && self.from@ < other.to@),
    {
        other.from.is_before(&self.to) && self.from.is_before(&other.to)
    }

    /// Whether `ts` lies in the range, both ends included.
    pub fn contains(&self, ts: Timestamp) -> (r: bool)
        ensures
            r == (self.from@ <= ts@ && ts@ <= self.to@),
    {
        if self.to.is_before(&ts) {
            false
        } else if ts.is_before(&self.from) {
            false
        } else {
            true
        }
    }

    /// Whether the current time lies in the range. The clock is read once; the
    /// answer is whether that reading, some representable instant, lies in
    /// the range (so it is `false` for a range that ends before it starts).
    pub fn contains_now(&self) -> (r: bool)
        ensures
            exists|t: Timestamp| r == (self.from@ <= #[trigger] t@ && t@ <= self.to@),
    {
        let t = now();
        let r = self.contains(t);
        assert(r == (self.from@ <= t@ && t@ <= self.to@));
        r
    }
}

/// `SystemTime::now` followed by `SystemTime::duration_since(UNIX_EPOCH)`:
/// the time of the system clock as whole seconds and nanoseconds after the
/// epoch (`Ok`), or before it (`Err`, from `SystemTimeError::duration`). The
/// nanoseconds are below one billion, as `Duration::subsec_nanos` documents;
/// which time the clock reads is not stated.
#[verifier::external_body]
fn read_system_clock() -> (r: Result<(u64, u32), (u64, u32)>)
    ensures
        match r {
            Ok((_, n)) => n < NANOS_PER_SEC,
            Err((_, n)) => n < NANOS_PER_SEC,
        },
{
    match SystemTime::now().duration_since(UNIX_EPOCH) {
        Ok(d) => Ok((d.as_secs(), d.subsec_nanos())),
        Err(e) => Err((e.duration().as_secs(), e.duration().subsec_nanos())),
    }
}

/// The signed number of nanoseconds a clock reading stands for: after the
/// epoch for `Ok`, before it for `Err`.
pub open spec fn clock_instant(reading: Result<(u64, u32), (u64, u32)>) -> int {
    match reading {
        Ok((s, n)) => s * 1_000_000_000 + n,
        Err((s, n)) => -(s * 1_000_000_000 + n),
    }
}

/// `n` brought into the representable instants: the nearest one when outside.
pub open spec fn clamped_instant(n: int) -> int {
    if n < min_instant() {
        min_instant()
    } else if n > max_instant() {
        max_instant()
    } else {
        n
    }
}

/// The instant of a clock reading (whole seconds and nanoseconds after, or
/// before, the epoch), or the nearest representable instant when it lies
/// outside them.
pub fn timestamp_from_clock(reading: Result<(u64, u32), (u64, u32)>) -> (t: Timestamp)
    ensures
        t@ == clamped_instant(clock_instant(reading)),
{
    let earliest = Timestamp { secs: TIMESTAMP_MIN_SECS, nanos: 0 };
    let latest = Timestamp { secs: TIMESTAMP_MAX_SECS, nanos: NANOS_PER_SEC - 1 };
    match reading {
        Ok((s, n)) => {
            let carry = (n / NANOS_PER_SEC) as u64;
            let nanos = n % NANOS_PER_SEC;
            if s > TIMESTAMP_MAX_SECS as u64 {
                latest
            } else {
                let secs = s + carry;
                if secs > TIMESTAMP_MAX_SECS as u64 {
                    latest
                } else {
                    Timestamp { secs: secs as i64, nanos }
                }
            }
        },
        Err((s, n)) => {
            let carry = (n / NANOS_PER_SEC) as u64;
            let nanos = n % NANOS_PER_SEC;
            let limit = (-TIMESTAMP_MIN_SECS) as u64;
            if s > limit {
                earliest
            } else {
                let secs = s + carry;
                if nanos == 0 {
                    if secs > limit {
                        earliest
                    } else {
                        Timestamp { secs: -(secs as i64), nanos: 0 }
                    }
                } else if secs >= limit {
                    earliest
                } else {
                    Timestamp { secs: -(secs as i64) - 1, nanos: NANOS_PER_SEC - nanos }
                }
            }
        },
    }
}

/// The current time as read from the system clock. The clock is read once;
/// a reading before the epoch gives an instant before it, and one outside the
/// representable instants the nearest of them. Which instant the clock reads
/// is not stated.
pub fn now() -> (t: Timestamp) {
    timestamp_from_clock(read_system_clock())
}

/// A value together with the time it was stamped.
#[derive(Clone, Copy, Debug, PartialEq, Hash)]
pub struct Timestamped<T>(Timestamp, T);

impl<T> Timestamped<T> {
    /// The time stamp.
    pub closed spec fn stamp(self) -> Timestamp {
        self.0
    }

    /// The stamped value.
    pub closed spec fn value(self) -> T {
        self.1
    }

    /// The value stamped with the given time.
    pub fn with_timestamp(timestamp: Timestamp, t: T) -> (s: Self)
        ensures
            s.stamp() == timestamp,
            s.value() == t,
    {
        Timestamped(timestamp, t)
    }

    /// The value stamped with the current time.
    pub fn new(t: T) -> (s: Self)
        ensures
            s.value() == t,
    {
        Timestamped(now(), t)
    }

    /// The value stamped with the epoch.
    pub fn new_with_epoch(t: T) -> (s: Self)
        ensures
            s.stamp()@ == 0,
            s.value() == t,
    {
        Timestamped(Timestamp::epoch(), t)
    }

    /// The span from the stamp to `at`.
    pub fn elapsed_at(&self, at: Timestamp) -> (d: Span)
        ensures
            d@ == at@ - self.stamp()@,
    {
        at.since(self.0)
    }

    /// The span from the stamp to the current time, as read once from the
    /// clock: the reading, some representable instant, less the stamp.
    pub fn elapsed(&self) -> (d: Span)
        ensures
            exists|t: Timestamp| d@ == #[trigger] t@ - self.stamp()@,
    {
        let t = now();
        let d = self.elapsed_at(t);
        assert(d@ == t@ - self.stamp()@);
        d
    }

    pub fn get_ref(&self) -> (r: &T)
        ensures
            *r == self.value(),
    {
        &self.1
    }

    pub fn get_mut(&mut self) -> (r: &mut T)
        ensures
            *r == old(self).value(),
            final(self).value() == *final(r),
            final(self).stamp() == old(self).stamp(),
    {
        &mut self.1
    }

    /// Stamps the value with the current time.
    pub fn reset_to_now(&mut self)
        ensures
            final(self).value() == old(self).value(),
    {
        self.0 = now();
    }

    pub fn into_inner(self) -> (t: T)
        ensures
            t == self.value(),
    {
        self.1
    }

    pub fn timestamp(&self) -> (t: Timestamp)
        ensures
            t == self.stamp(),
    {
        self.0
    }

    /// Moves the stamp to `ts` when `ts` is later; tells whether it did.
    pub fn set_timestamp_if_newer(&mut self, ts: Timestamp) -> (changed: bool)
        ensures
            changed == (old(self).stamp()@ < ts@),
            final(self).stamp() == newer_stamp(old(self).stamp(), ts),
            final(self).value() == old(self).value(),
    {
        if self.0.is_before(&ts) {
            self.0 = ts;
            true
        } else {
            false
        }
    }
}

impl<T: Copy> Timestamped<T> {
    pub fn value_copied(&self) -> (t: T)
        ensures
            t == self.value(),
    {
        self.1
    }
}

impl<T: Clone> Timestamped<T> {
    pub fn value_cloned(&self) -> (t: T)
        ensures
            cloned(self.value(), t),
    {
        self.1.clone()
    }
}

impl<T: Default> Default for Timestamped<T> {
    /// The default value stamped with the current time.
    fn default() -> (s: Self)
        ensures
            call_ensures(T::default, (), s.value()),
    {
        Timestamped::new(T::default())
    }
}

impl<T> Timestamped<Option<T>> {
    /// Whether a value is present.
    pub fn is_present(&self) -> (r: bool)
        ensures
            r == self.value() is Some,
    {
        self.1.is_some()
    }
}

/// The later of a stamp and `ts`, the stamp when they are the same instant.
pub open spec fn newer_stamp(stamp: Timestamp, ts: Timestamp) -> Timestamp {
    if stamp@ < ts@ {
        ts
    } else {
        stamp
    }
}

/// Moving a stamp to a newer time never moves it back and leaves it at or
/// after that time; doing it again with the same time reports no change and
/// changes nothing.
pub proof fn law_set_timestamp_if_newer(stamp: Timestamp, ts: Timestamp)
    ensures
        newer_stamp(stamp, ts)@ >= stamp@,
        newer_stamp(stamp, ts)@ >= ts@,
        newer_stamp(newer_stamp(stamp, ts), ts) == newer_stamp(stamp, ts),
        !(newer_stamp(stamp, ts)@ < ts@),
{
}

/// A span made from a number of milliseconds gives back that number.
pub proof fn law_milliseconds_round_trip(ms: i64)
    requires
        ms > i64::MIN,
    ensures
        div_toward_zero(ms * 1_000_000, 1_000_000) == ms,
{
    if ms >= 0 {
        assert((ms * 1_000_000) / 1_000_000 == ms) by (nonlinear_arith);
    } else {
        assert((-(ms * 1_000_000)) / 1_000_000 == -ms) by (nonlinear_arith);
    }
}

} // verus!
