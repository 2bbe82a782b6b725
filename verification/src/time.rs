//! Points in time, UTC, measured from the Unix epoch, with the calendar
//! arithmetic that the simulation needs.
use vstd::prelude::*;

verus! {

/// Earliest second that a timestamp can hold (start of year -262143).
pub const MIN_SECS: i64 = -8334601228800;

/// Latest second that a timestamp can hold (end of year 262142).
pub const MAX_SECS: i64 = 8210266876799;

pub open spec fn nanos_per_sec() -> int {
    1_000_000_000
}

pub open spec fn nanos_per_minute() -> int {
    60_000_000_000
}

pub open spec fn nanos_per_hour() -> int {
    3_600_000_000_000
}

/// Smallest representable instant, in nanoseconds since the epoch.
pub open spec fn min_instant() -> int {
    MIN_SECS * nanos_per_sec()
}

/// Largest representable instant, in nanoseconds since the epoch.
pub open spec fn max_instant() -> int {
    MAX_SECS * nanos_per_sec() + 999_999_999
}

pub open spec fn in_range(instant: int) -> bool {
    min_instant() <= instant <= max_instant()
}

/// Division that rounds toward zero.
pub open spec fn div_toward_zero(x: int, d: int) -> int
    recommends
        d > 0,
{
    if x >= 0 {
        x / d
    } else {
        -((-x) / d)
    }
}

/// A point in time, UTC, with nanosecond precision.
#[derive(Clone, Copy, Debug, PartialEq, Eq, Structural)]
pub struct Timestamp {
    secs: i64,
    nanos: u32,
}

impl Timestamp {
    #[verifier::type_invariant]
    pub closed spec fn well_formed(self) -> bool {
        &&& MIN_SECS <= self.secs <= MAX_SECS
        &&& self.nanos < 1_000_000_000
    }

    /// Nanoseconds since the Unix epoch.
    pub closed spec fn instant(self) -> int {
        self.secs * 1_000_000_000 + self.nanos
    }

    /// Every timestamp lies in the representable range.
    pub proof fn lemma_in_range(self)
        requires
            self.well_formed(),
        ensures
            in_range(self.instant()),
    {
    }

    /// Two timestamps are equal exactly where they name the same instant.
    pub proof fn lemma_instant_determines(self, other: Timestamp)
        requires
            self.well_formed(),
            other.well_formed(),
        ensures
            self.instant() == other.instant() <==> self == other,
    {
    }

    /// The instant `minutes` minutes after `self` (before it, for a negative count).
    pub closed spec fn later_by_minutes(self, minutes: int) -> Timestamp {
        Timestamp { secs: (self.secs + minutes * 60) as i64, nanos: self.nanos }
    }

    /// Moving by whole minutes moves the instant by as many minutes, where the
    /// result stays in range.
    pub proof fn lemma_later_by_minutes(self, minutes: int)
        requires
            self.well_formed(),
            in_range(self.instant() + minutes * nanos_per_minute()),
        ensures
            self.later_by_minutes(minutes).instant() == self.instant() + minutes * nanos_per_minute(),
            self.later_by_minutes(minutes).well_formed(),
    {
        let s = self.secs + minutes * 60;
        let n = self.nanos as int;
        assert(s * 1_000_000_000 + n == self.instant() + minutes * nanos_per_minute())
            by (nonlinear_arith)
            requires
                s == self.secs + minutes * 60,
                self.instant() == self.secs * 1_000_000_000 + n,
                nanos_per_minute() == 60_000_000_000,
        ;
        assert(MIN_SECS <= s <= MAX_SECS) by (nonlinear_arith)
            requires
                0 <= n < 1_000_000_000,
                MIN_SECS * 1_000_000_000 <= s * 1_000_000_000 + n,
                s * 1_000_000_000 + n <= MAX_SECS * 1_000_000_000 + 999_999_999,
        ;
    }

    /// Builds the timestamp `secs` seconds and `nanos` nanoseconds after the epoch,
    /// or `None` where that lies outside the representable range.
    pub fn from_unix(secs: i64, nanos: u32) -> (r: Option<Timestamp>)
        ensures
            r is Some <==> (MIN_SECS <= secs <= MAX_SECS && nanos < 1_000_000_000),
            r matches Some(t) ==> t.instant() == secs * nanos_per_sec() + nanos,
    {
        if MIN_SECS <= secs && secs <= MAX_SECS && nanos < 1_000_000_000 {
            Some(Timestamp { secs, nanos })
        } else {
            None
        }
    }

    /// Whole seconds since the epoch (rounded down).
    pub fn unix_secs(&self) -> (r: i64)
        ensures
            r == self.instant() / nanos_per_sec(),
    {
        proof { use_type_invariant(self); }
        self.secs
    }

    /// Nanoseconds past the whole second.
    pub fn subsec_nanos(&self) -> (r: u32)
        ensures
            r == self.instant() % nanos_per_sec(),
    {
        proof { use_type_invariant(self); }
        self.nanos
    }

    fn instant_exec(&self) -> (r: i128)
        ensures
            r == self.instant(),
    {
        proof { use_type_invariant(self); }
        self.secs as i128 * 1_000_000_000 + self.nanos as i128
    }

    /// True where `self` lies strictly before `other`.
    pub fn is_before(&self, other: &Timestamp) -> (r: bool)
        ensures
            r == (self.instant() < other.instant()),
    {
        self.instant_exec() < other.instant_exec()
    }

    /// Whether the instant `minutes` minutes later (earlier, for a negative count)
    /// lies in the representable range.
    pub fn can_shift_minutes(&self, minutes: i64) -> (r: bool)
        ensures
            r == in_range(self.instant() + minutes * nanos_per_minute()),
    {
        proof { use_type_invariant(self); }
        let t: i128 = self.instant_exec() + minutes as i128 * 60_000_000_000;
        MIN_SECS as i128 * 1_000_000_000 <= t && t <= MAX_SECS as i128 * 1_000_000_000 + 999_999_999
    }

    /// The instant `minutes` minutes later (earlier, for a negative count).
    pub fn plus_minutes(&self, minutes: i64) -> (r: Timestamp)
        requires
            in_range(self.instant() + minutes * nanos_per_minute()),
        ensures
            r == self.later_by_minutes(minutes as int),
            r.instant() == self.instant() + minutes * nanos_per_minute(),
    {
        proof {
            use_type_invariant(self);
            self.lemma_later_by_minutes(minutes as int);
        }
        let s: i128 = self.secs as i128 + minutes as i128 * 60;
        Timestamp { secs: s as i64, nanos: self.nanos }
    }

    /// Whole minutes from `earlier` to `self`, rounded toward zero.
    pub fn minutes_since(&self, earlier: &Timestamp) -> (r: i64)
        ensures
            r == div_toward_zero(self.instant() - earlier.instant(), nanos_per_minute()),
    {
        proof { use_type_invariant(self); use_type_invariant(earlier); }
        let d: i128 = self.instant_exec() - earlier.instant_exec();
        if d >= 0 {
            (d / 60_000_000_000) as i64
        } else {
            -(((-d) / 60_000_000_000) as i64)
        }
    }

    /// Whole hours from `earlier` to `self`, rounded toward zero.
    pub fn hours_since(&self, earlier: &Timestamp) -> (r: i64)
        ensures
            r == div_toward_zero(self.instant() - earlier.instant(), nanos_per_hour()),
    {
        proof { use_type_invariant(self); use_type_invariant(earlier); }
        let d: i128 = self.instant_exec() - earlier.instant_exec();
        if d >= 0 {
            (d / 3_600_000_000_000) as i64
        } else {
            -(((-d) / 3_600_000_000_000) as i64)
        }
    }

    /// Hour of the day, 0 to 23.
    pub fn hour(&self) -> (r: u8)
        ensures
            r == (self.instant() / nanos_per_sec()) % 86400 / 3600,
    {
        proof { use_type_invariant(self); }
        let r: i64 = self.secs.checked_rem_euclid(86400).unwrap();
        (r / 3600) as u8
    }
}

} // verus!
