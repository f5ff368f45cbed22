//! Local time and durations, in milliseconds, and the clock interface.

use vstd::prelude::*;

verus! {

/// Number of milliseconds in one second.
pub const MILLIS_PER_SEC: u128 = 1000;

/// Number of seconds in one minute.
pub const SECS_PER_MIN: u64 = 60;

/// A span of local time, in milliseconds.
#[derive(Clone, Copy, Debug, PartialEq, Eq, Structural)]
pub struct LocalDuration {
    pub millis: u128,
}

/// A point in local time, in milliseconds since the epoch.
#[derive(Clone, Copy, Debug, PartialEq, Eq, Structural)]
pub struct LocalTime {
    pub millis: u128,
}

impl LocalDuration {
    /// The duration made of this many milliseconds.
    pub fn from_millis(millis: u128) -> (d: LocalDuration)
        ensures
            d.millis == millis,
    {
        LocalDuration { millis }
    }

    /// The duration made of this many seconds.
    pub fn from_secs(secs: u64) -> (d: LocalDuration)
        ensures
            d.millis == secs * 1000,
    {
        let wide: u128 = secs as u128;
        LocalDuration { millis: wide * MILLIS_PER_SEC }
    }

    /// The duration made of this many minutes.
    pub fn from_mins(mins: u64) -> (d: LocalDuration)
        ensures
            d.millis == mins * 60 * 1000,
    {
        let wide: u128 = mins as u128;
        LocalDuration { millis: wide * 60 * MILLIS_PER_SEC }
    }

    /// The number of milliseconds in this duration.
    pub fn as_millis(&self) -> (m: u128)
        ensures
            m == self.millis,
    {
        self.millis
    }

    /// The number of whole seconds in this duration.
    pub fn as_secs(&self) -> (s: u128)
        ensures
            s == self.millis / 1000,
    {
        self.millis / MILLIS_PER_SEC
    }

    /// Whether this duration is at least as long as `other`.
    pub fn at_least(&self, other: LocalDuration) -> (b: bool)
        ensures
            b == (self.millis >= other.millis),
    {
        self.millis >= other.millis
    }
}

impl LocalTime {
    /// The time this many milliseconds after the epoch.
    pub fn from_millis(millis: u128) -> (t: LocalTime)
        ensures
            t.millis == millis,
    {
        LocalTime { millis }
    }

    /// The time this many seconds after the epoch.
    pub fn from_secs(secs: u64) -> (t: LocalTime)
        ensures
            t.millis == secs * 1000,
    {
        let wide: u128 = secs as u128;
        LocalTime { millis: wide * MILLIS_PER_SEC }
    }

    /// The number of whole seconds since the epoch.
    pub fn as_secs(&self) -> (s: u128)
        ensures
            s == self.millis / 1000,
    {
        self.millis / MILLIS_PER_SEC
    }

    /// Time elapsed between `earlier` and `self`, in the model: zero when
    /// `earlier` is not in the past.
    pub open spec fn since(self, earlier: LocalTime) -> LocalDuration {
        LocalDuration {
            millis: if self.millis >= earlier.millis {
                (self.millis - earlier.millis) as u128
            } else {
                0
            },
        }
    }

    /// Time elapsed between `earlier` and `self`. A clock that went backwards
    /// gives a zero duration rather than a wrapped one.
    pub fn duration_since(&self, earlier: LocalTime) -> (d: LocalDuration)
        ensures
            d == self.since(earlier),
    {
        if self.millis >= earlier.millis {
            LocalDuration { millis: self.millis - earlier.millis }
        } else {
            LocalDuration { millis: 0 }
        }
    }

    /// This time moved forward by `d`, stopping at the largest time that can
    /// be represented.
    pub fn elapse(&mut self, d: LocalDuration)
        ensures
            final(self).millis == if old(self).millis + d.millis <= u128::MAX {
                old(self).millis + d.millis
            } else {
                u128::MAX as int
            },
    {
        self.millis = self.millis.saturating_add(d.millis);
    }
}

/// A source of local time, injected into whatever needs to know the time.
///
/// Nothing is promised of two successive readings: a caller states what
/// holds for every reading the clock could give.
pub trait Clock: Clone {
    /// The current local time according to this clock.
    fn local_time(&self) -> LocalTime;
}

/// A fixed point in time is a clock that always reads that time.
impl Clock for LocalTime {
    fn local_time(&self) -> (t: LocalTime)
        ensures
            t == *self,
    {
        *self
    }
}

} // verus!
